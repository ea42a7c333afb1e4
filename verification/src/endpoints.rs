//! The three operations' computational cores: building each request URL,
//! mapping response bodies to record batches, combining the four ordered
//! cumulative sub-results, applying batches to the table models, and
//! naming the snapshot file.

use vstd::prelude::*;

use crate::dates::ascii_chars;
use crate::dates::now_epoch_ms;
use crate::dates::offset_date_from;
use crate::dates::offset_date_string;
use crate::errors::InaError;
use crate::helpers::create_statistics_query;
use crate::helpers::ep_val;
use crate::helpers::lemma_base_pairs_std;
use crate::helpers::lemma_stats_query_ascii;
use crate::helpers::spec_ep_val;
use crate::helpers::stats_query_string;
use crate::helpers::std_base_pairs;
use crate::helpers::Endpoint;
use crate::helpers::QueryParams;
use crate::helpers::WhereQueries;
use crate::encode::ascii_pairs;
use crate::encode::qs_render_spec;
use crate::json::get_member;
use crate::json::json_model;
use crate::json::json_model_of;
use crate::json::obj_member;
use crate::json::JsonValue;
use crate::models::attributes_matches;
use crate::models::batch_matches_model;
use crate::models::batch_of_features;
use crate::models::collection_matches;
use crate::models::collection_ok;
use crate::models::feature_matches;
use crate::models::lemma_normalized_matches_model;
use crate::models::normalized_from;
use crate::models::parse_feature_collection;
use crate::models::record_matches_feature_model;
use crate::models::CovidStatistics;
use crate::models::DataProvinsiOpt;
use crate::models::DataProvinsiOptVec;
use crate::models::Feature;
use crate::models::InaCovid;
use crate::urls::make_request_url;
use crate::urls::url_wellformed;
use crate::urls::url_with_query;

verus! {

/// A builder over the base parameter set with the given `where` clause.
pub fn make_base_querystring(w: WhereQueries) -> (r: QueryParams)
    ensures
        r.well_formed(),
        r.where_query == w,
{
    let mut new_query = QueryParams::new();
    new_query.where_query = w;
    new_query
}

/// The extra pairs of the daily time-series request.
pub open spec fn daily_extra_pairs() -> Seq<(Seq<char>, Seq<char>)> {
    seq![("orderByFields"@, "Tanggal asc"@), ("resultRecordCount"@, "2000"@), ("resultOffset"@, "0"@)]
}

/// The full query string of the daily request as of instant `now_ms`.
pub open spec fn daily_query_string(now_ms: int) -> Seq<char> {
    qs_render_spec(std_base_pairs(WhereQueries::BeforeToday(0), now_ms) + daily_extra_pairs())
}

/// Builds the daily time-series request URL as of instant `now_ms`.
pub fn daily_request_url_at(now_ms: i64) -> (r: Result<String, InaError>)
    ensures
        (r is Ok) == url_wellformed(spec_ep_val(Endpoint::Perkembangan)),
        r matches Ok(u) ==> u@ == url_with_query(
            spec_ep_val(Endpoint::Perkembangan),
            daily_query_string(now_ms as int),
        ),
        r matches Err(e) ==> e is InvalidEndpoint,
{
    let qp = make_base_querystring(WhereQueries::BeforeToday(0));
    let mut kv: Vec<(&str, &str)> = Vec::new();
    kv.push(("orderByFields", "Tanggal asc"));
    kv.push(("resultRecordCount", "2000"));
    kv.push(("resultOffset", "0"));
    proof {
        reveal_strlit("orderByFields");
        reveal_strlit("Tanggal asc");
        reveal_strlit("resultRecordCount");
        reveal_strlit("2000");
        reveal_strlit("resultOffset");
        reveal_strlit("0");
        assert(QueryParams::kv_view(kv@) =~~= daily_extra_pairs());
        assert(ascii_chars("orderByFields"@) && ascii_chars("Tanggal asc"@));
        assert(ascii_chars("resultRecordCount"@) && ascii_chars("2000"@));
        assert(ascii_chars("resultOffset"@) && ascii_chars("0"@));
        assert(ascii_pairs(QueryParams::kv_view(kv@)));
        lemma_base_pairs_std(qp, now_ms as int);
    }
    let q = qp.add_queries_at(kv, now_ms);
    assert(q@ == daily_query_string(now_ms as int));
    let base = ep_val(Endpoint::Perkembangan);
    make_request_url(base.as_str(), q.as_str())
}

/// The extra pairs of the per-province request.
pub open spec fn province_extra_pairs() -> Seq<(Seq<char>, Seq<char>)> {
    seq![("orderByFields"@, "Kasus_Posi desc"@), ("resultRecordCount"@, "2000"@), ("resultOffset"@, "0"@)]
}

/// The full query string of the per-province request.
pub open spec fn province_query_string(now_ms: int) -> Seq<char> {
    qs_render_spec(std_base_pairs(WhereQueries::All, now_ms) + province_extra_pairs())
}

/// Builds the per-province request URL.
pub fn province_request_url_at(now_ms: i64) -> (r: Result<String, InaError>)
    ensures
        (r is Ok) == url_wellformed(spec_ep_val(Endpoint::Perprov)),
        r matches Ok(u) ==> u@ == url_with_query(
            spec_ep_val(Endpoint::Perprov),
            province_query_string(now_ms as int),
        ),
        r matches Err(e) ==> e is InvalidEndpoint,
{
    let qp = make_base_querystring(WhereQueries::All);
    let mut kv: Vec<(&str, &str)> = Vec::new();
    kv.push(("orderByFields", "Kasus_Posi desc"));
    kv.push(("resultRecordCount", "2000"));
    kv.push(("resultOffset", "0"));
    proof {
        reveal_strlit("orderByFields");
        reveal_strlit("Kasus_Posi desc");
        reveal_strlit("resultRecordCount");
        reveal_strlit("2000");
        reveal_strlit("resultOffset");
        reveal_strlit("0");
        assert(QueryParams::kv_view(kv@) =~~= province_extra_pairs());
        assert(ascii_chars("orderByFields"@) && ascii_chars("Kasus_Posi desc"@));
        assert(ascii_chars("resultRecordCount"@) && ascii_chars("2000"@));
        assert(ascii_chars("resultOffset"@) && ascii_chars("0"@));
        assert(ascii_pairs(QueryParams::kv_view(kv@)));
        lemma_base_pairs_std(qp, now_ms as int);
    }
    let q = qp.add_queries_at(kv, now_ms);
    assert(q@ == province_query_string(now_ms as int));
    let base = ep_val(Endpoint::Perprov);
    make_request_url(base.as_str(), q.as_str())
}

/// The field summed by the `i`-th cumulative sub-query, in submission
/// order: deaths, recovered, under treatment, cumulative cases.
pub open spec fn cumulative_field(i: int) -> Seq<char> {
    if i == 0 {
        "Jumlah_Pasien_Meninggal"@
    } else if i == 1 {
        "Jumlah_Pasien_Sembuh"@
    } else if i == 2 {
        "Jumlah_pasien_dalam_perawatan"@
    } else {
        "Jumlah_Kasus_Kumulatif"@
    }
}

/// The full query string of the `i`-th cumulative sub-query.
pub open spec fn cumulative_query_string(i: int, prefix: int, now_ms: int) -> Seq<char> {
    qs_render_spec(
        std_base_pairs(WhereQueries::CurrentDate(prefix as i64), now_ms) + seq![
            ("outStatistics"@, stats_query_string(cumulative_field(i))),
        ],
    )
}

fn cumulative_request_url_at(field: &str, prefix: i64, now_ms: i64) -> (r: Result<
    String,
    InaError,
>)
    requires
        i64::MIN + 1 < prefix < i64::MAX,
        ascii_chars(field@),
    ensures
        (r is Ok) == url_wellformed(spec_ep_val(Endpoint::Perkembangan)),
        r matches Ok(u) ==> u@ == url_with_query(
            spec_ep_val(Endpoint::Perkembangan),
            qs_render_spec(
                std_base_pairs(WhereQueries::CurrentDate(prefix), now_ms as int) + seq![
                    ("outStatistics"@, stats_query_string(field@)),
                ],
            ),
        ),
        r matches Err(e) ==> e is InvalidEndpoint,
{
    let qp = make_base_querystring(WhereQueries::CurrentDate(prefix));
    let sq = create_statistics_query(field);
    let mut kv: Vec<(&str, &str)> = Vec::new();
    kv.push(("outStatistics", sq.as_str()));
    proof {
        reveal_strlit("outStatistics");
        assert(QueryParams::kv_view(kv@) =~~= seq![
            ("outStatistics"@, stats_query_string(field@)),
        ]);
        assert(ascii_chars("outStatistics"@));
        lemma_stats_query_ascii(field@);
        assert(ascii_pairs(QueryParams::kv_view(kv@)));
        lemma_base_pairs_std(qp, now_ms as int);
    }
    let q = qp.add_queries_at(kv, now_ms);
    let base = ep_val(Endpoint::Perkembangan);
    make_request_url(base.as_str(), q.as_str())
}

/// Builds the four cumulative sub-query URLs, in submission order.
pub fn cumulative_request_urls_at(prefix: i64, now_ms: i64) -> (r: Result<Vec<String>, InaError>)
    requires
        i64::MIN + 1 < prefix < i64::MAX,
    ensures
        (r is Ok) == url_wellformed(spec_ep_val(Endpoint::Perkembangan)),
        r matches Ok(us) ==> us@.len() == 4 && forall|i: int|
            0 <= i < 4 ==> us@[i]@ == url_with_query(
                spec_ep_val(Endpoint::Perkembangan),
                cumulative_query_string(i, prefix as int, now_ms as int),
            ),
        r matches Err(e) ==> e is InvalidEndpoint,
{
    proof {
        reveal_strlit("Jumlah_Pasien_Meninggal");
        reveal_strlit("Jumlah_Pasien_Sembuh");
        reveal_strlit("Jumlah_pasien_dalam_perawatan");
        reveal_strlit("Jumlah_Kasus_Kumulatif");
        assert(ascii_chars("Jumlah_Pasien_Meninggal"@));
        assert(ascii_chars("Jumlah_Pasien_Sembuh"@));
        assert(ascii_chars("Jumlah_pasien_dalam_perawatan"@));
        assert(ascii_chars("Jumlah_Kasus_Kumulatif"@));
    }
    let u0 = cumulative_request_url_at("Jumlah_Pasien_Meninggal", prefix, now_ms)?;
    let u1 = cumulative_request_url_at("Jumlah_Pasien_Sembuh", prefix, now_ms)?;
    let u2 = cumulative_request_url_at("Jumlah_pasien_dalam_perawatan", prefix, now_ms)?;
    let u3 = cumulative_request_url_at("Jumlah_Kasus_Kumulatif", prefix, now_ms)?;
    let mut us: Vec<String> = Vec::new();
    us.push(u0);
    us.push(u1);
    us.push(u2);
    us.push(u3);
    Ok(us)
}

/// Normalizes a parsed envelope's features into a record batch as of
/// instant `now_ms`: one entry per feature, in order; a feature without
/// attributes becomes an absent entry.
pub fn get_ina_covid_vec_at(res: InaCovid, now_ms: i64) -> (r: DataProvinsiOptVec)
    ensures
        batch_of_features(
            r.provinsi_vec@,
            match res.features {
                Some(f) => f@,
                None => Seq::<Feature>::empty(),
            },
            now_ms as int,
        ),
{
    let feats = res.get_features();
    let ghost fs = feats@;
    let mut rest = feats;
    let mut data: Vec<DataProvinsiOpt> = Vec::new();
    while rest.len() > 0
        invariant
            data@.len() + rest@.len() == fs.len(),
            forall|j: int| 0 <= j < rest@.len() ==> rest@[j] == fs[data@.len() + j],
            forall|i: int|
                #![trigger data@[i]]
                0 <= i < data@.len() ==> match fs[i].attributes {
                    Some(a) => data@[i].indo_covid_stats matches Some(s) && normalized_from(
                        s,
                        a,
                        now_ms as int,
                    ),
                    None => data@[i].indo_covid_stats is None,
                },
        decreases rest.len(),
    {
        let f = rest.remove(0);
        match f.attributes {
            Some(_) => {
                data.push(DataProvinsiOpt::new_at(f, now_ms));
            },
            None => {
                data.push(DataProvinsiOpt { indo_covid_stats: None });
            },
        }
    }
    let r = DataProvinsiOptVec::new(data);
    proof {
        assert forall|i: int| 0 <= i < fs.len() implies match fs[i].attributes {
            Some(a) => #[trigger] r.provinsi_vec@[i] matches Some(s) && normalized_from(
                s,
                a,
                now_ms as int,
            ),
            None => r.provinsi_vec@[i] is None,
        } by {
            assert(r.provinsi_vec@[i] == data@[i].indo_covid_stats);
        }
    }
    r
}

/// Parses a feature-collection body and normalizes its features as of
/// instant `now_ms`: exactly the well-formed bodies whose document is a
/// well-shaped envelope are accepted, and the batch then holds one entry
/// per feature of the document, in order.
pub fn process_collection_body_at(body: &str, now_ms: i64) -> (r: Result<
    DataProvinsiOptVec,
    InaError,
>)
    ensures
        r is Ok <==> (json_model_of(body@) matches Some(v) && collection_ok(v)),
        r matches Ok(dv) ==> batch_matches_model(dv, json_model_of(body@)->0, now_ms as int),
        r matches Err(e) ==> e is MalformedResponse,
{
    let ic = parse_feature_collection(body)?;
    let ghost icg = ic;
    let dv = get_ina_covid_vec_at(ic, now_ms);
    proof {
        let v = json_model_of(body@)->0;
        assert(collection_matches(icg, v));
        match obj_member(v, "features"@) {
            Option::None => {},
            Option::Some(x) => {
                if x is Null {
                } else {
                    match x {
                        JsonValue::Arr(a) => {
                            let list = icg.features->0;
                            assert(batch_of_features(dv.provinsi_vec@, list@, now_ms as int));
                            assert forall|i: int|
                                0 <= i < a@.len() implies record_matches_feature_model(
                                #[trigger] dv.provinsi_vec@[i],
                                a@[i],
                                now_ms as int,
                            ) by {
                                let fe = list@[i];
                                assert(feature_matches(fe, a@[i]));
                                match obj_member(a@[i], "attributes"@) {
                                    Option::None => {
                                        assert(fe.attributes is None);
                                    },
                                    Option::Some(at_model) => {
                                        if !(at_model is Null) {
                                            let at = fe.attributes->0;
                                            assert(attributes_matches(at, at_model));
                                            assert(dv.provinsi_vec@[i] matches Some(s)
                                                && normalized_from(s, at, now_ms as int));
                                            let s = dv.provinsi_vec@[i]->0;
                                            lemma_normalized_matches_model(
                                                s,
                                                at,
                                                at_model,
                                                now_ms as int,
                                            );
                                        } else {
                                            assert(fe.attributes is None);
                                        }
                                    },
                                }
                            }
                        },
                        _ => {},
                    }
                }
            },
        }
        assert(batch_matches_model(dv, v, now_ms as int));
    }
    Ok(dv)
}

/// The value at the nested path `features[0].attributes.value` of a
/// parsed document; absent whenever any step of the path is absent or of
/// the wrong kind.
pub open spec fn stat_value_of(v: JsonValue) -> Option<i64> {
    match obj_member(v, "features"@) {
        Some(fs) => match fs {
            JsonValue::Arr(elems) => if elems@.len() > 0 {
                match obj_member(elems@[0], "attributes"@) {
                    Some(a) => match obj_member(a, "value"@) {
                        Some(x) => match x {
                            JsonValue::Num(n) => n.int_val,
                            _ => None,
                        },
                        None => None,
                    },
                    None => None,
                }
            } else {
                None
            },
            _ => None,
        },
        None => None,
    }
}

/// Reads the statistics value out of a parsed sub-query document.
pub fn extract_stat_value(v: &JsonValue) -> (r: Option<i64>)
    ensures
        r == stat_value_of(*v),
{
    match get_member(v, "features") {
        None => None,
        Some(fs) => match fs {
            JsonValue::Arr(elems) => if elems.len() > 0 {
                match get_member(&elems[0], "attributes") {
                    None => None,
                    Some(a) => match get_member(a, "value") {
                        None => None,
                        Some(x) => match x {
                            JsonValue::Num(n) => n.int_val,
                            _ => None,
                        },
                    },
                }
            } else {
                None
            },
            _ => None,
        },
    }
}

/// Combines the four sub-query values into the composite record strictly
/// by submission position: deaths, recovered, under treatment, cumulative
/// cases; the creation date is the reporting date of `now_ms`.
pub fn combine_cumulative_at(values: Vec<Option<i64>>, now_ms: i64) -> (r: CovidStatistics)
    requires
        values@.len() == 4,
    ensures
        r.deaths == values@[0],
        r.recovered == values@[1],
        r.pdp == values@[2],
        r.total_cases == values@[3],
        r.created matches Some(c) && c@ == offset_date_string(now_ms as int, 0),
{
    let created = offset_date_from(now_ms, 0);
    CovidStatistics::new(values[3], values[0], values[1], values[2], Some(created))
}

/// The statistics value of one sub-query body: the nested path read out
/// of the body's parsed document.
pub open spec fn body_stat(b: Option<String>) -> Option<i64> {
    stat_value_of(json_model_of(b->0@)->0)
}

/// Builds the cumulative record from the four sub-query bodies, in
/// submission order: it succeeds exactly when all four bodies arrived
/// and parse as JSON, each body's value lands in its submission
/// position, and a parsed body without the expected nested path only
/// leaves that value unset.
pub fn cumulative_stats_from_bodies_at(bodies: Vec<Option<String>>, now_ms: i64) -> (r: Result<
    CovidStatistics,
    InaError,
>)
    requires
        bodies@.len() == 4,
    ensures
        r is Ok <==> (forall|i: int|
            #![trigger bodies@[i]]
            0 <= i < 4 ==> (bodies@[i] matches Some(b) && json_model_of(b@) is Some)),
        r matches Ok(c) ==> ({
            &&& c.deaths == body_stat(bodies@[0])
            &&& c.recovered == body_stat(bodies@[1])
            &&& c.pdp == body_stat(bodies@[2])
            &&& c.total_cases == body_stat(bodies@[3])
            &&& c.created matches Some(s) && s@ == offset_date_string(now_ms as int, 0)
        }),
        r matches Err(e) ==> e is AggregationFailure,
{
    let mut values: Vec<Option<i64>> = Vec::new();
    let mut i: usize = 0;
    while i < 4
        invariant
            values@.len() == i,
            i <= 4,
            bodies@.len() == 4,
            forall|j: int|
                #![trigger bodies@[j]]
                0 <= j < i ==> (bodies@[j] matches Some(b) && json_model_of(b@) is Some),
            forall|j: int| 0 <= j < i ==> values@[j] == body_stat(#[trigger] bodies@[j]),
        decreases 4 - i,
    {
        match &bodies[i] {
            None => {
                return Err(InaError::AggregationFailure);
            },
            Some(b) => {
                match json_model(b.as_str()) {
                    None => {
                        return Err(InaError::AggregationFailure);
                    },
                    Some(v) => {
                        let sv = extract_stat_value(&v);
                        values.push(sv);
                        assert(values@[i as int] == body_stat(bodies@[i as int]));
                    },
                }
            },
        }
        i = i + 1;
    }
    Ok(combine_cumulative_at(values, now_ms))
}

/// The snapshot path: `{dir}{name}-{YYYY-MM-DD}.json` with the reporting
/// date of `now_ms`.
pub fn set_json_filename_at(dir: &str, name: &str, now_ms: i64) -> (r: String)
    ensures
        r@ == dir@ + name@ + "-"@ + offset_date_string(now_ms as int, 0) + ".json"@,
{
    let date = offset_date_from(now_ms, 0);
    let mut s = String::from_str(dir);
    s.append(name);
    s.append("-");
    s.append(date.as_str());
    s.append(".json");
    s
}

/// The snapshot path with the date taken from the system clock.
pub fn set_json_filename(dir: &str, name: &str) -> (r: String)
    ensures
        exists|now: int| r@ == dir@ + name@ + "-"@ + offset_date_string(now, 0) + ".json"@,
{
    let now = now_epoch_ms();
    let r = set_json_filename_at(dir, name, now);
    assert(r@ == dir@ + name@ + "-"@ + offset_date_string(now as int, 0) + ".json"@);
    r
}

} // verus!
