//! Series data and its JSON form.
use vstd::prelude::*;
use crate::chart_type::ChartType;
use crate::json::{
    array_text, int_json, int_text, json_array, json_object, json_quoted, object_text, quote,
    texts, JsonNumber,
};

verus! {

/// The data of one series. Each variant is one shape of data point.
#[derive(Clone, Debug, PartialEq)]
pub enum SeriesData {
    /// Plain values, e.g. `[10, 20, 30]`.
    Single(Vec<i64>),
    /// Numeric `(x, y)` pairs, e.g. `[(10, 20), (20, 30)]`.
    NumericPaired(Vec<(i64, i64)>),
    /// Values with a category, e.g. `[("Apple", 30), ("Banana", 40)]`.
    CategoryPaired(Vec<(String, i64)>),
    /// Values with a Unix timestamp, e.g. `[(1619683200, 30), (1619769600, 40)]`.
    Timestamped(Vec<(i64, i64)>),
    /// Values with a date, e.g. `[("2021-04-29", 30), ("2021-04-30", 40)]`.
    Dated(Vec<(String, i64)>),
    /// Labelled shares that add up to 100, for pie, donut and radial bar charts.
    Radial(Vec<(String, JsonNumber)>),
    /// Labelled candles, each `[open, high, low, close]`.
    CandleStick(Vec<(String, Vec<JsonNumber>)>),
}

/// One series of a chart.
#[derive(Clone, Debug, PartialEq)]
pub struct ChartSeries {
    /// The series name, also shown in the legend.
    pub name: String,
    /// The points of the series.
    pub data: SeriesData,
    /// The color the series is drawn in.
    pub color: String,
    /// A chart kind for this series alone, overriding the chart's.
    pub chart_type: Option<ChartType>,
    /// The stacking order: higher values are drawn on top.
    pub z_index: Option<i32>,
}

/// `[x, y]`.
pub open spec fn pair_json(p: (i64, i64)) -> Seq<char> {
    json_array(seq![int_json(p.0 as int), int_json(p.1 as int)])
}

/// `{"x": label, "y": value}`, the value given as JSON text.
pub open spec fn point_json(label: Seq<char>, y: Seq<char>) -> Seq<char> {
    json_object(seq![("x"@, json_quoted(label)), ("y"@, y)])
}

pub open spec fn numbers_json(v: Seq<JsonNumber>) -> Seq<char> {
    json_array(v.map_values(|n: JsonNumber| n@))
}

impl SeriesData {
    /// The JSON array the data is written as.
    pub open spec fn spec_json(self) -> Seq<char> {
        match self {
            SeriesData::Single(v) => json_array(v@.map_values(|n: i64| int_json(n as int))),
            SeriesData::NumericPaired(v) => json_array(v@.map_values(|p: (i64, i64)| pair_json(p))),
            SeriesData::Timestamped(v) => json_array(v@.map_values(|p: (i64, i64)| pair_json(p))),
            SeriesData::CategoryPaired(v) => json_array(
                v@.map_values(|p: (String, i64)| point_json(p.0@, int_json(p.1 as int))),
            ),
            SeriesData::Dated(v) => json_array(
                v@.map_values(|p: (String, i64)| point_json(p.0@, int_json(p.1 as int))),
            ),
            SeriesData::Radial(v) => json_array(
                v@.map_values(|p: (String, JsonNumber)| point_json(p.0@, p.1@)),
            ),
            SeriesData::CandleStick(v) => json_array(
                v@.map_values(|p: (String, Vec<JsonNumber>)| point_json(p.0@, numbers_json(p.1@))),
            ),
        }
    }
}

proof fn lemma_take_push<A>(v: Seq<A>, i: int, f: spec_fn(A) -> Seq<char>)
    requires
        0 <= i < v.len(),
    ensures
        v.take(i + 1).map_values(f) =~= v.take(i).map_values(f).push(f(v[i])),
{
    assert(v.take(i + 1) =~= v.take(i).push(v[i]));
}

fn ints_text(v: &Vec<i64>) -> (r: String)
    ensures
        r@ == json_array(v@.map_values(|n: i64| int_json(n as int))),
{
    let ghost f = |n: i64| int_json(n as int);
    let mut parts: Vec<String> = Vec::new();
    let mut i: usize = 0;
    while i < v.len()
        invariant
            0 <= i <= v.len(),
            texts(parts@) =~= v@.take(i as int).map_values(f),
            f == (|n: i64| int_json(n as int)),
        decreases v.len() - i,
    {
        let part = int_text(v[i]);
        proof {
            lemma_take_push(v@, i as int, f);
        }
        let ghost before = parts@;
        parts.push(part);
        assert(texts(parts@) =~= texts(before).push(part@));
        i += 1;
    }
    assert(v@.take(v.len() as int) =~= v@);
    array_text(&parts)
}

fn pairs_text(v: &Vec<(i64, i64)>) -> (r: String)
    ensures
        r@ == json_array(v@.map_values(|p: (i64, i64)| pair_json(p))),
{
    let ghost f = |p: (i64, i64)| pair_json(p);
    let mut parts: Vec<String> = Vec::new();
    let mut i: usize = 0;
    while i < v.len()
        invariant
            0 <= i <= v.len(),
            texts(parts@) =~= v@.take(i as int).map_values(f),
            f == (|p: (i64, i64)| pair_json(p)),
        decreases v.len() - i,
    {
        let (x, y) = v[i];
        let xy: Vec<i64> = vec![x, y];
        let part = ints_text(&xy);
        proof {
            assert(xy@.map_values(|n: i64| int_json(n as int)) =~= seq![
                int_json(x as int),
                int_json(y as int),
            ]);
            lemma_take_push(v@, i as int, f);
        }
        let ghost before = parts@;
        parts.push(part);
        assert(texts(parts@) =~= texts(before).push(part@));
        i += 1;
    }
    assert(v@.take(v.len() as int) =~= v@);
    array_text(&parts)
}

fn point_text(label: &str, y: String) -> (r: String)
    ensures
        r@ == point_json(label@, y@),
{
    let members: Vec<(String, String)> = vec![
        (String::from_str("x"), quote(label)),
        (String::from_str("y"), y),
    ];
    let r = object_text(&members);
    assert(crate::json::member_texts(members@) =~= seq![("x"@, json_quoted(label@)), ("y"@, y@)]);
    r
}

fn numbers_text(v: &Vec<JsonNumber>) -> (r: String)
    ensures
        r@ == numbers_json(v@),
{
    let ghost f = |n: JsonNumber| n@;
    let mut parts: Vec<String> = Vec::new();
    let mut i: usize = 0;
    while i < v.len()
        invariant
            0 <= i <= v.len(),
            texts(parts@) =~= v@.take(i as int).map_values(f),
            f == (|n: JsonNumber| n@),
        decreases v.len() - i,
    {
        let part = String::from_str(v[i].as_str());
        proof {
            lemma_take_push(v@, i as int, f);
        }
        let ghost before = parts@;
        parts.push(part);
        assert(texts(parts@) =~= texts(before).push(part@));
        i += 1;
    }
    assert(v@.take(v.len() as int) =~= v@);
    array_text(&parts)
}

fn int_points_text(v: &Vec<(String, i64)>) -> (r: String)
    ensures
        r@ == json_array(v@.map_values(|p: (String, i64)| point_json(p.0@, int_json(p.1 as int)))),
{
    let ghost f = |p: (String, i64)| point_json(p.0@, int_json(p.1 as int));
    let mut parts: Vec<String> = Vec::new();
    let mut i: usize = 0;
    while i < v.len()
        invariant
            0 <= i <= v.len(),
            texts(parts@) =~= v@.take(i as int).map_values(f),
            f == (|p: (String, i64)| point_json(p.0@, int_json(p.1 as int))),
        decreases v.len() - i,
    {
        let part = point_text(v[i].0.as_str(), int_text(v[i].1));
        proof {
            lemma_take_push(v@, i as int, f);
        }
        let ghost before = parts@;
        parts.push(part);
        assert(texts(parts@) =~= texts(before).push(part@));
        i += 1;
    }
    assert(v@.take(v.len() as int) =~= v@);
    array_text(&parts)
}

fn radial_points_text(v: &Vec<(String, JsonNumber)>) -> (r: String)
    ensures
        r@ == json_array(v@.map_values(|p: (String, JsonNumber)| point_json(p.0@, p.1@))),
{
    let ghost f = |p: (String, JsonNumber)| point_json(p.0@, p.1@);
    let mut parts: Vec<String> = Vec::new();
    let mut i: usize = 0;
    while i < v.len()
        invariant
            0 <= i <= v.len(),
            texts(parts@) =~= v@.take(i as int).map_values(f),
            f == (|p: (String, JsonNumber)| point_json(p.0@, p.1@)),
        decreases v.len() - i,
    {
        let part = point_text(v[i].0.as_str(), String::from_str(v[i].1.as_str()));
        proof {
            lemma_take_push(v@, i as int, f);
        }
        let ghost before = parts@;
        parts.push(part);
        assert(texts(parts@) =~= texts(before).push(part@));
        i += 1;
    }
    assert(v@.take(v.len() as int) =~= v@);
    array_text(&parts)
}

fn candles_text(v: &Vec<(String, Vec<JsonNumber>)>) -> (r: String)
    ensures
        r@ == json_array(
            v@.map_values(|p: (String, Vec<JsonNumber>)| point_json(p.0@, numbers_json(p.1@))),
        ),
{
    let ghost f = |p: (String, Vec<JsonNumber>)| point_json(p.0@, numbers_json(p.1@));
    let mut parts: Vec<String> = Vec::new();
    let mut i: usize = 0;
    while i < v.len()
        invariant
            0 <= i <= v.len(),
            texts(parts@) =~= v@.take(i as int).map_values(f),
            f == (|p: (String, Vec<JsonNumber>)| point_json(p.0@, numbers_json(p.1@))),
        decreases v.len() - i,
    {
        let part = point_text(v[i].0.as_str(), numbers_text(&v[i].1));
        proof {
            lemma_take_push(v@, i as int, f);
        }
        let ghost before = parts@;
        parts.push(part);
        assert(texts(parts@) =~= texts(before).push(part@));
        i += 1;
    }
    assert(v@.take(v.len() as int) =~= v@);
    array_text(&parts)
}

impl SeriesData {
    /// The data as a JSON array, one element per point: a number for
    /// `Single`, `[x, y]` for numeric and timestamped pairs, and
    /// `{"x": label, "y": value}` for labelled points.
    pub fn to_json(&self) -> (r: String)
        ensures
            r@ == self.spec_json(),
    {
        match self {
            SeriesData::Single(v) => ints_text(v),
            SeriesData::NumericPaired(v) => pairs_text(v),
            SeriesData::Timestamped(v) => pairs_text(v),
            SeriesData::CategoryPaired(v) => int_points_text(v),
            SeriesData::Dated(v) => int_points_text(v),
            SeriesData::Radial(v) => radial_points_text(v),
            SeriesData::CandleStick(v) => candles_text(v),
        }
    }
}

impl ChartSeries {
    /// The members of the series object, in order; the optional ones are
    /// left out when unset.
    pub open spec fn spec_members(self) -> Seq<(Seq<char>, Seq<char>)> {
        let base = seq![
            ("name"@, json_quoted(self.name@)),
            ("data"@, self.data.spec_json()),
            ("color"@, json_quoted(self.color@)),
        ];
        let typed = match self.chart_type {
            Some(t) => base.push(("chart_type"@, json_quoted(t.spec_name()))),
            None => base,
        };
        match self.z_index {
            Some(z) => typed.push(("z_index"@, int_json(z as int))),
            None => typed,
        }
    }

    pub open spec fn spec_json(self) -> Seq<char> {
        json_object(self.spec_members())
    }

    /// The series as a JSON object.
    pub fn to_json(&self) -> (r: String)
        ensures
            r@ == self.spec_json(),
    {
        let mut members: Vec<(String, String)> = vec![
            (String::from_str("name"), quote(self.name.as_str())),
            (String::from_str("data"), self.data.to_json()),
            (String::from_str("color"), quote(self.color.as_str())),
        ];
        let ghost base = crate::json::member_texts(members@);
        assert(base =~= seq![
            ("name"@, json_quoted(self.name@)),
            ("data"@, self.data.spec_json()),
            ("color"@, json_quoted(self.color@)),
        ]);
        if let Some(t) = self.chart_type {
            let name = t.to_string();
            members.push((String::from_str("chart_type"), quote(name.as_str())));
        }
        let ghost typed = crate::json::member_texts(members@);
        assert(typed =~= match self.chart_type {
            Some(t) => base.push(("chart_type"@, json_quoted(t.spec_name()))),
            None => base,
        });
        if let Some(z) = self.z_index {
            members.push((String::from_str("z_index"), int_text(z as i64)));
        }
        assert(crate::json::member_texts(members@) =~= self.spec_members());
        object_text(&members)
    }
}

/// A JSON array of the series objects, in order.
pub open spec fn series_list_json(series: Seq<ChartSeries>) -> Seq<char> {
    json_array(series.map_values(|c: ChartSeries| c.spec_json()))
}

/// The series as a JSON array of series objects.
pub fn series_list_text(series: &Vec<ChartSeries>) -> (r: String)
    ensures
        r@ == series_list_json(series@),
{
    let mut parts: Vec<String> = Vec::new();
    let mut i: usize = 0;
    while i < series.len()
        invariant
            0 <= i <= series.len(),
            texts(parts@) =~= series@.take(i as int).map_values(|c: ChartSeries| c.spec_json()),
        decreases series.len() - i,
    {
        let part = series[i].to_json();
        proof {
            lemma_take_push(series@, i as int, |c: ChartSeries| c.spec_json());
        }
        let ghost before = parts@;
        parts.push(part);
        assert(texts(parts@) =~= texts(before).push(part@));
        i += 1;
    }
    assert(series@.take(series.len() as int) =~= series@);
    array_text(&parts)
}

} // verus!
