//! Upstream endpoints, `where`-clause construction over the reporting-day
//! window, and the query-parameter builder.

use vstd::prelude::*;

use crate::dates::ascii_chars;
use crate::dates::civil_of_day;
use crate::dates::count_prefix_at;
use crate::dates::effective_offset;
use crate::dates::second_of_day_of_ms;
use crate::dates::CUTOFF_SECONDS;
use crate::dates::era_day_of_ms;
use crate::dates::lemma_ascii_concat;
use crate::dates::lemma_date_string_ascii;
use crate::dates::now_epoch_ms;
use crate::dates::offset_date_from;
use crate::dates::offset_date_string;
use crate::dates::shifted_day;
use crate::encode::ascii_pairs;
use crate::encode::lemma_pairs_view_push;
use crate::encode::pairs_view;
use crate::encode::qs_render;
use crate::encode::qs_render_spec;

verus! {

/// The two upstream feature-server query endpoints.
pub enum Endpoint {
    Perprov,
    Perkembangan,
}

pub open spec fn spec_ep_val(e: Endpoint) -> Seq<char> {
    match e {
        Endpoint::Perprov => "https://services5.arcgis.com/VS6HdKS0VfIhv8Ct/arcgis/rest/services/COVID19_Indonesia_per_Provinsi/FeatureServer/0/query"@,
        Endpoint::Perkembangan => "https://services5.arcgis.com/VS6HdKS0VfIhv8Ct/arcgis/rest/services/Statistik_Perkembangan_COVID19_Indonesia/FeatureServer/0/query"@,
    }
}

/// The base URL of an upstream endpoint.
pub fn ep_val(e: Endpoint) -> (r: String)
    ensures
        r@ == spec_ep_val(e),
{
    match e {
        Endpoint::Perprov => String::from_str(
            "https://services5.arcgis.com/VS6HdKS0VfIhv8Ct/arcgis/rest/services/COVID19_Indonesia_per_Provinsi/FeatureServer/0/query",
        ),
        Endpoint::Perkembangan => String::from_str(
            "https://services5.arcgis.com/VS6HdKS0VfIhv8Ct/arcgis/rest/services/Statistik_Perkembangan_COVID19_Indonesia/FeatureServer/0/query",
        ),
    }
}

/// The selectable `where` clauses of an upstream query.
#[derive(Clone, Copy, Debug)]
pub enum WhereQueries {
    Confirmed,
    Deaths,
    Recovered,
    All,
    Indonesia,
    CurrentDate(i64),
    BeforeToday(i64),
}

/// The day-offset payloads stay clear of the extremes of `i64`, so the
/// offsets around them can be formed.
pub open spec fn where_query_bounded(w: WhereQueries) -> bool {
    match w {
        WhereQueries::CurrentDate(p) => i64::MIN + 1 < p < i64::MAX,
        WhereQueries::BeforeToday(p) => i64::MIN < p,
        _ => true,
    }
}

/// The `where` clause selected by `w` as of instant `now_ms`: the date
/// literals come from the reporting day in force at that instant.
pub open spec fn spec_where_val(w: WhereQueries, now_ms: int) -> Seq<char> {
    match w {
        WhereQueries::Confirmed => "(Confirmed > 0)"@,
        WhereQueries::Deaths => "(Confirmed > 0) AND (Deaths > 0)"@,
        WhereQueries::Recovered => "(Confirmed > 0) AND (Recovered <> 0)"@,
        WhereQueries::All => "1=1"@,
        WhereQueries::Indonesia => "(Provinsi = 'Indonesia') OR (Provinsi <> 'Indonesia')"@,
        WhereQueries::CurrentDate(p) => {
            let np = effective_offset(p as int, now_ms);
            "(Tanggal>=timestamp '"@ + offset_date_string(now_ms, np) + " 17:00:00' AND Tanggal<=timestamp '"@
                + offset_date_string(now_ms, np + 1) + " 16:59:59' OR Tanggal>=timestamp '"@
                + offset_date_string(now_ms, np - 1) + " 16:59:59')"@
        },
        WhereQueries::BeforeToday(p) => {
            let np = effective_offset(p as int, now_ms);
            "Tanggal<timestamp '"@ + offset_date_string(now_ms, np) + " 17:00:00'"@
        },
    }
}

/// The `where` clause selected by `w`, with the reporting day taken from
/// the instant `now_ms`.
pub fn where_val_at(w: WhereQueries, now_ms: i64) -> (r: String)
    requires
        where_query_bounded(w),
    ensures
        r@ == spec_where_val(w, now_ms as int),
{
    match w {
        WhereQueries::Confirmed => String::from_str("(Confirmed > 0)"),
        WhereQueries::Deaths => String::from_str("(Confirmed > 0) AND (Deaths > 0)"),
        WhereQueries::Recovered => String::from_str("(Confirmed > 0) AND (Recovered <> 0)"),
        WhereQueries::All => String::from_str("1=1"),
        WhereQueries::Indonesia => String::from_str(
            "(Provinsi = 'Indonesia') OR (Provinsi <> 'Indonesia')",
        ),
        WhereQueries::CurrentDate(p) => {
            let np = count_prefix_at(p, now_ms);
            let now = offset_date_from(now_ms, np);
            let tomorrow = offset_date_from(now_ms, np + 1);
            let yesterday = offset_date_from(now_ms, np - 1);
            let mut s = String::from_str("(Tanggal>=timestamp '");
            s.append(now.as_str());
            s.append(" 17:00:00' AND Tanggal<=timestamp '");
            s.append(tomorrow.as_str());
            s.append(" 16:59:59' OR Tanggal>=timestamp '");
            s.append(yesterday.as_str());
            s.append(" 16:59:59')");
            s
        },
        WhereQueries::BeforeToday(p) => {
            let np = count_prefix_at(p, now_ms);
            let day = offset_date_from(now_ms, np);
            let mut s = String::from_str("Tanggal<timestamp '");
            s.append(day.as_str());
            s.append(" 17:00:00'");
            s
        },
    }
}

/// The `where` clause selected by `w`, with the reporting day taken from
/// the system clock.
pub fn where_val(w: WhereQueries) -> (r: String)
    requires
        where_query_bounded(w),
    ensures
        exists|now: int| r@ == spec_where_val(w, now),
{
    let now = now_epoch_ms();
    let r = where_val_at(w, now);
    assert(r@ == spec_where_val(w, now as int));
    r
}

/// The date literal embedded in a `where` clause is ASCII.
pub proof fn lemma_offset_date_string_ascii(now_ms: int, off: int)
    ensures
        ascii_chars(offset_date_string(now_ms, off)),
{
    let c = civil_of_day(shifted_day(era_day_of_ms(now_ms), off));
    lemma_date_string_ascii(c.0, c.1, c.2);
}

/// Every `where` clause is ASCII.
pub proof fn lemma_where_val_ascii(w: WhereQueries, now_ms: int)
    ensures
        ascii_chars(spec_where_val(w, now_ms)),
{
    match w {
        WhereQueries::Confirmed => {
            reveal_strlit("(Confirmed > 0)");
            assert(ascii_chars(spec_where_val(w, now_ms)));
        },
        WhereQueries::Deaths => {
            reveal_strlit("(Confirmed > 0) AND (Deaths > 0)");
            assert(ascii_chars(spec_where_val(w, now_ms)));
        },
        WhereQueries::Recovered => {
            reveal_strlit("(Confirmed > 0) AND (Recovered <> 0)");
            assert(ascii_chars(spec_where_val(w, now_ms)));
        },
        WhereQueries::All => {
            reveal_strlit("1=1");
            assert(ascii_chars(spec_where_val(w, now_ms)));
        },
        WhereQueries::Indonesia => {
            reveal_strlit("(Provinsi = 'Indonesia') OR (Provinsi <> 'Indonesia')");
            assert(ascii_chars(spec_where_val(w, now_ms)));
        },
        WhereQueries::CurrentDate(p) => {
            reveal_strlit("(Tanggal>=timestamp '");
            reveal_strlit(" 17:00:00' AND Tanggal<=timestamp '");
            reveal_strlit(" 16:59:59' OR Tanggal>=timestamp '");
            reveal_strlit(" 16:59:59')");
            let np = effective_offset(p as int, now_ms);
            lemma_offset_date_string_ascii(now_ms, np);
            lemma_offset_date_string_ascii(now_ms, np + 1);
            lemma_offset_date_string_ascii(now_ms, np - 1);
            assert(ascii_chars("(Tanggal>=timestamp '"@));
            assert(ascii_chars(" 17:00:00' AND Tanggal<=timestamp '"@));
            assert(ascii_chars(" 16:59:59' OR Tanggal>=timestamp '"@));
            assert(ascii_chars(" 16:59:59')"@));
            lemma_ascii_concat("(Tanggal>=timestamp '"@, offset_date_string(now_ms, np));
            lemma_ascii_concat(
                "(Tanggal>=timestamp '"@ + offset_date_string(now_ms, np),
                " 17:00:00' AND Tanggal<=timestamp '"@,
            );
            lemma_ascii_concat(
                "(Tanggal>=timestamp '"@ + offset_date_string(now_ms, np)
                    + " 17:00:00' AND Tanggal<=timestamp '"@,
                offset_date_string(now_ms, np + 1),
            );
            lemma_ascii_concat(
                "(Tanggal>=timestamp '"@ + offset_date_string(now_ms, np)
                    + " 17:00:00' AND Tanggal<=timestamp '"@ + offset_date_string(now_ms, np + 1),
                " 16:59:59' OR Tanggal>=timestamp '"@,
            );
            lemma_ascii_concat(
                "(Tanggal>=timestamp '"@ + offset_date_string(now_ms, np)
                    + " 17:00:00' AND Tanggal<=timestamp '"@ + offset_date_string(now_ms, np + 1)
                    + " 16:59:59' OR Tanggal>=timestamp '"@,
                offset_date_string(now_ms, np - 1),
            );
            lemma_ascii_concat(
                "(Tanggal>=timestamp '"@ + offset_date_string(now_ms, np)
                    + " 17:00:00' AND Tanggal<=timestamp '"@ + offset_date_string(now_ms, np + 1)
                    + " 16:59:59' OR Tanggal>=timestamp '"@ + offset_date_string(now_ms, np - 1),
                " 16:59:59')"@,
            );
        },
        WhereQueries::BeforeToday(p) => {
            reveal_strlit("Tanggal<timestamp '");
            reveal_strlit(" 17:00:00'");
            let np = effective_offset(p as int, now_ms);
            lemma_offset_date_string_ascii(now_ms, np);
            assert(ascii_chars("Tanggal<timestamp '"@));
            assert(ascii_chars(" 17:00:00'"@));
            lemma_ascii_concat("Tanggal<timestamp '"@, offset_date_string(now_ms, np));
            lemma_ascii_concat(
                "Tanggal<timestamp '"@ + offset_date_string(now_ms, np),
                " 17:00:00'"@,
            );
        },
    }
}

/// The query-parameter builder: a fixed base set plus a selectable `where`
/// clause.
#[derive(Debug)]
pub struct QueryParams {
    pub f: String,
    pub out_fields: String,
    pub where_query: WhereQueries,
    pub spatial_rel: String,
}

impl QueryParams {
    /// The fixed fields hold their one intended value.
    pub open spec fn well_formed(&self) -> bool {
        self.f@ == "json"@ && self.out_fields@ == "*"@ && self.spatial_rel@
            == "esriSpatialRelIntersects"@
    }

    /// A builder over the base parameter set, selecting all records.
    pub fn new() -> (r: QueryParams)
        ensures
            r.well_formed(),
            r.where_query is All,
    {
        QueryParams {
            f: String::from_str("json"),
            where_query: WhereQueries::All,
            out_fields: String::from_str("*"),
            spatial_rel: String::from_str("esriSpatialRelIntersects"),
        }
    }

    /// The base parameter pairs, in their fixed order.
    pub open spec fn base_pairs(self, now_ms: int) -> Seq<(Seq<char>, Seq<char>)> {
        seq![
            ("f"@, self.f@),
            ("where"@, spec_where_val(self.where_query, now_ms)),
            ("returnGeometry"@, "false"@),
            ("spatialRel"@, self.spatial_rel@),
            ("outFields"@, self.out_fields@),
            ("cacheHint"@, "true"@),
        ]
    }

    fn base_vec(&self, now_ms: i64) -> (r: Vec<(String, String)>)
        requires
            self.well_formed(),
            where_query_bounded(self.where_query),
        ensures
            pairs_view(r@) =~~= self.base_pairs(now_ms as int),
            ascii_pairs(pairs_view(r@)),
    {
        let mut pairs: Vec<(String, String)> = Vec::new();
        pairs.push((String::from_str("f"), self.f.clone()));
        pairs.push((String::from_str("where"), where_val_at(self.where_query, now_ms)));
        pairs.push((String::from_str("returnGeometry"), String::from_str("false")));
        pairs.push((String::from_str("spatialRel"), self.spatial_rel.clone()));
        pairs.push((String::from_str("outFields"), self.out_fields.clone()));
        pairs.push((String::from_str("cacheHint"), String::from_str("true")));
        proof {
            assert(pairs_view(pairs@) =~~= self.base_pairs(now_ms as int));
            reveal_strlit("f");
            reveal_strlit("json");
            reveal_strlit("where");
            reveal_strlit("returnGeometry");
            reveal_strlit("false");
            reveal_strlit("spatialRel");
            reveal_strlit("esriSpatialRelIntersects");
            reveal_strlit("outFields");
            reveal_strlit("*");
            reveal_strlit("cacheHint");
            reveal_strlit("true");
            lemma_where_val_ascii(self.where_query, now_ms as int);
            assert forall|i: int|
                0 <= i < pairs_view(pairs@).len() implies ascii_chars(
                #[trigger] pairs_view(pairs@)[i].0,
            ) && ascii_chars(pairs_view(pairs@)[i].1) by {
                assert(ascii_chars("f"@));
                assert(ascii_chars("json"@));
                assert(ascii_chars("where"@));
                assert(ascii_chars("returnGeometry"@));
                assert(ascii_chars("false"@));
                assert(ascii_chars("spatialRel"@));
                assert(ascii_chars("esriSpatialRelIntersects"@));
                assert(ascii_chars("outFields"@));
                assert(ascii_chars("*"@));
                assert(ascii_chars("cacheHint"@));
                assert(ascii_chars("true"@));
            }
        }
        pairs
    }

    /// The rendered base query string as of instant `now_ms`.
    pub fn query_params_at(&self, now_ms: i64) -> (r: String)
        requires
            self.well_formed(),
            where_query_bounded(self.where_query),
        ensures
            r@ == qs_render_spec(self.base_pairs(now_ms as int)),
    {
        let pairs = self.base_vec(now_ms);
        qs_render(pairs)
    }

    /// The rendered base query string, with the reporting day taken from
    /// the system clock.
    pub fn query_params(&self) -> (r: String)
        requires
            self.well_formed(),
            where_query_bounded(self.where_query),
        ensures
            exists|now: int| r@ == qs_render_spec(self.base_pairs(now)),
    {
        let now = now_epoch_ms();
        let r = self.query_params_at(now);
        assert(r@ == qs_render_spec(self.base_pairs(now as int)));
        r
    }

    /// The views of a list of borrowed pairs.
    pub open spec fn kv_view(kv: Seq<(&str, &str)>) -> Seq<(Seq<char>, Seq<char>)> {
        kv.map_values(|p: (&str, &str)| (p.0@, p.1@))
    }

    /// The analogue of `lemma_pairs_view_push` for borrowed pairs.
    pub proof fn lemma_kv_view_push(s: Seq<(&str, &str)>, p: (&str, &str))
        ensures
            Self::kv_view(s.push(p)) =~= Self::kv_view(s).push((p.0@, p.1@)),
    {
        assert forall|j: int|
            0 <= j < s.len() + 1 implies Self::kv_view(s.push(p))[j] == Self::kv_view(s).push(
            (p.0@, p.1@),
        )[j] by {
            if j < s.len() {
                assert(s.push(p)[j] == s[j]);
            } else {
                assert(s.push(p)[j] == p);
            }
        }
    }

    /// The base query string with `kv` appended after it, in caller order,
    /// as of instant `now_ms`; keys are not deduplicated.
    pub fn add_queries_at(&self, kv: Vec<(&str, &str)>, now_ms: i64) -> (r: String)
        requires
            self.well_formed(),
            where_query_bounded(self.where_query),
            ascii_pairs(Self::kv_view(kv@)),
        ensures
            r@ == qs_render_spec(self.base_pairs(now_ms as int) + Self::kv_view(kv@)),
    {
        let mut pairs = self.base_vec(now_ms);
        let ghost base = pairs_view(pairs@);
        let mut i: usize = 0;
        while i < kv.len()
            invariant
                i <= kv.len(),
                pairs_view(pairs@) =~~= base + Self::kv_view(kv@.take(i as int)),
                ascii_pairs(pairs_view(pairs@)),
                ascii_pairs(Self::kv_view(kv@)),
                base =~~= self.base_pairs(now_ms as int),
            decreases kv.len() - i,
        {
            let k = String::from_str(kv[i].0);
            let v = String::from_str(kv[i].1);
            let ghost prev = pairs@;
            proof {
                lemma_pairs_view_push(pairs@, (k, v));
                Self::lemma_kv_view_push(kv@.take(i as int), kv@[i as int]);
                assert(kv@.take(i + 1 as int) =~= kv@.take(i as int).push(kv@[i as int]));
            }
            pairs.push((k, v));
            proof {
                assert(pairs_view(pairs@) =~= pairs_view(prev).push((kv@[i as int].0@, kv@[
                    i as int].1@)));
                assert(pairs_view(pairs@) =~~= base + Self::kv_view(kv@.take(i + 1 as int)));
                assert(i < kv@.len());
                assert(Self::kv_view(kv@).len() == kv@.len());
                assert(Self::kv_view(kv@)[i as int] == (kv@[i as int].0@, kv@[i as int].1@));
                assert(ascii_chars(Self::kv_view(kv@)[i as int].0) && ascii_chars(
                    Self::kv_view(kv@)[i as int].1,
                ));
                assert forall|j: int|
                    0 <= j < pairs_view(pairs@).len() implies ascii_chars(
                    #[trigger] pairs_view(pairs@)[j].0,
                ) && ascii_chars(pairs_view(pairs@)[j].1) by {
                    if j < prev.len() {
                        assert(pairs_view(pairs@)[j] == pairs_view(prev)[j]);
                    }
                }
            }
            i = i + 1;
        }
        proof {
            assert(kv@.take(kv@.len() as int) =~= kv@);
        }
        qs_render(pairs)
    }

    /// The base query string with `kv` appended, with the reporting day
    /// taken from the system clock.
    pub fn add_queries(&self, kv: Vec<(&str, &str)>) -> (r: String)
        requires
            self.well_formed(),
            where_query_bounded(self.where_query),
            ascii_pairs(Self::kv_view(kv@)),
        ensures
            exists|now: int|
                r@ == qs_render_spec(self.base_pairs(now) + Self::kv_view(kv@)),
    {
        let now = now_epoch_ms();
        let ghost kvv = Self::kv_view(kv@);
        let r = self.add_queries_at(kv, now);
        assert(r@ == qs_render_spec(self.base_pairs(now as int) + kvv));
        r
    }
}

/// The before-today filter for a day offset `d` embeds exactly the date
/// of the reporting day in force at the instant of the call: today shifted
/// by `d`, or by `d - 1` before the 10:00 UTC cutoff.
pub proof fn lemma_before_today_filter_date(d: i64, now_ms: int)
    ensures
        spec_where_val(WhereQueries::BeforeToday(d), now_ms) == "Tanggal<timestamp '"@
            + offset_date_string(now_ms, effective_offset(d as int, now_ms)) + " 17:00:00'"@,
{
}

/// Two instants on the same side of the cutoff and in the same calendar
/// day produce the same before-today filter: the result does not depend
/// on the call time otherwise.
pub proof fn lemma_before_today_filter_call_time(d: i64, ms1: int, ms2: int)
    requires
        era_day_of_ms(ms1) == era_day_of_ms(ms2),
        (second_of_day_of_ms(ms1) < CUTOFF_SECONDS) == (second_of_day_of_ms(ms2)
            < CUTOFF_SECONDS),
    ensures
        spec_where_val(WhereQueries::BeforeToday(d), ms1) == spec_where_val(
            WhereQueries::BeforeToday(d),
            ms2,
        ),
{
    assert(effective_offset(d as int, ms1) == effective_offset(d as int, ms2));
}

/// Across the cutoff boundary the effective day offset moves by exactly
/// one: before the cutoff it is one less than after it.
pub proof fn lemma_cutoff_offset(d: i64, ms1: int, ms2: int)
    requires
        second_of_day_of_ms(ms1) < CUTOFF_SECONDS,
        second_of_day_of_ms(ms2) >= CUTOFF_SECONDS,
    ensures
        effective_offset(d as int, ms1) == effective_offset(d as int, ms2) - 1,
{
}

/// The base parameter pairs written out over their fixed literal values.
pub open spec fn std_base_pairs(w: WhereQueries, now_ms: int) -> Seq<(Seq<char>, Seq<char>)> {
    seq![
        ("f"@, "json"@),
        ("where"@, spec_where_val(w, now_ms)),
        ("returnGeometry"@, "false"@),
        ("spatialRel"@, "esriSpatialRelIntersects"@),
        ("outFields"@, "*"@),
        ("cacheHint"@, "true"@),
    ]
}

/// A well-formed builder's pairs are the fixed literal pairs.
pub proof fn lemma_base_pairs_std(qp: QueryParams, now_ms: int)
    requires
        qp.well_formed(),
    ensures
        qp.base_pairs(now_ms) =~~= std_base_pairs(qp.where_query, now_ms),
{
}

/// The statistics-aggregation descriptor for `field`: a one-element JSON
/// array requesting the sum of the field under the name `value`.
pub open spec fn stats_query_string(field: Seq<char>) -> Seq<char> {
    "[{\"statisticType\":\"sum\",\"onStatisticField\":\""@ + field
        + "\",\"outStatisticFieldName\":\"value\"}]"@
}

/// Builds the statistics-aggregation descriptor for a field.
pub fn create_statistics_query(field: &str) -> (r: String)
    ensures
        r@ == stats_query_string(field@),
{
    let mut s = String::from_str("[{\"statisticType\":\"sum\",\"onStatisticField\":\"");
    s.append(field);
    s.append("\",\"outStatisticFieldName\":\"value\"}]");
    s
}

/// The descriptor of an ASCII field name is ASCII.
pub proof fn lemma_stats_query_ascii(field: Seq<char>)
    requires
        ascii_chars(field),
    ensures
        ascii_chars(stats_query_string(field)),
{
    reveal_strlit("[{\"statisticType\":\"sum\",\"onStatisticField\":\"");
    reveal_strlit("\",\"outStatisticFieldName\":\"value\"}]");
    assert(ascii_chars("[{\"statisticType\":\"sum\",\"onStatisticField\":\""@));
    assert(ascii_chars("\",\"outStatisticFieldName\":\"value\"}]"@));
    lemma_ascii_concat("[{\"statisticType\":\"sum\",\"onStatisticField\":\""@, field);
    lemma_ascii_concat(
        "[{\"statisticType\":\"sum\",\"onStatisticField\":\""@ + field,
        "\",\"outStatisticFieldName\":\"value\"}]"@,
    );
}

} // verus!
