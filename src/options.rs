//! The options document handed to the chart constructor: the chart kind,
//! size, series and labels laid over the document the caller supplies.
use vstd::prelude::*;
use crate::chart_type::ChartType;
use crate::json::{
    array_text, json_array, json_object, json_quoted, member_texts, object_text, quote, texts,
    JsonNumber,
};
use crate::series::{series_list_json, series_list_text, ChartSeries, SeriesData};

verus! {

/// A document as read from JSON text: the members of an object, each value
/// written back as compact JSON text, or what else the text held.
pub enum ParsedDocument {
    Invalid,
    Null,
    Object(Vec<(String, String)>),
    Other,
}

/// What a `ParsedDocument` holds, with each text as its characters.
pub enum DocumentView {
    Invalid,
    Null,
    Object(Seq<(Seq<char>, Seq<char>)>),
    Other,
}

impl View for ParsedDocument {
    type V = DocumentView;

    open spec fn view(&self) -> DocumentView {
        match self {
            ParsedDocument::Invalid => DocumentView::Invalid,
            ParsedDocument::Null => DocumentView::Null,
            ParsedDocument::Object(m) => DocumentView::Object(member_texts(m@)),
            ParsedDocument::Other => DocumentView::Other,
        }
    }
}

/// What serde_json reads a text as: not JSON, `null`, an object (its members
/// in the order serde_json keeps them, each value written back as compact
/// JSON), or another value.
pub uninterp spec fn json_document(s: Seq<char>) -> DocumentView;

/// Relies on `serde_json::from_str` into a `serde_json::Value`, and on the
/// `Display` of `Value` for the text of each member of an object.
#[verifier::external_body]
fn parse_document(s: &str) -> (r: ParsedDocument)
    ensures
        r@ == json_document(s@),
{
    match serde_json::from_str::<serde_json::Value>(s) {
        Err(_) => ParsedDocument::Invalid,
        Ok(serde_json::Value::Null) => ParsedDocument::Null,
        Ok(serde_json::Value::Object(m)) => ParsedDocument::Object(
            m.into_iter().map(|(k, v)| (k, v.to_string())).collect(),
        ),
        Ok(_) => ParsedDocument::Other,
    }
}

/// Why a caller's options document could not take the chart settings.
#[derive(Clone, Copy, Debug, PartialEq, Eq, Structural)]
pub enum OptionsError {
    /// The options are not JSON.
    InvalidJson,
    /// The options are JSON but neither an object nor `null`.
    NotAnObject,
    /// The `chart` member is there but neither an object nor `null`.
    ChartNotAnObject,
}

pub open spec fn has_key(m: Seq<(Seq<char>, Seq<char>)>, k: Seq<char>) -> bool {
    exists|i: int| 0 <= i < m.len() && #[trigger] m[i].0 == k
}

/// The members with `k` set to `v`: its value replaced where the key is
/// there, else the member added at the end.
pub open spec fn with_member(
    m: Seq<(Seq<char>, Seq<char>)>,
    k: Seq<char>,
    v: Seq<char>,
) -> Seq<(Seq<char>, Seq<char>)> {
    if has_key(m, k) {
        m.map_values(
            |e: (Seq<char>, Seq<char>)|
                if e.0 == k {
                    (k, v)
                } else {
                    e
                },
        )
    } else {
        m.push((k, v))
    }
}

/// The value of the last member named `k`.
pub open spec fn member_value(m: Seq<(Seq<char>, Seq<char>)>, k: Seq<char>) -> Option<Seq<char>>
    decreases m.len(),
{
    if m.len() == 0 {
        None
    } else if m.last().0 == k {
        Some(m.last().1)
    } else {
        member_value(m.drop_last(), k)
    }
}

/// The members of the `chart` settings: none where the member is absent or
/// `null`, and `None` where it holds another value than an object.
pub open spec fn chart_members(chart: Option<Seq<char>>) -> Option<Seq<(Seq<char>, Seq<char>)>> {
    match chart {
        None => Some(Seq::empty()),
        Some(t) => match json_document(t) {
            DocumentView::Null => Some(Seq::empty()),
            DocumentView::Object(c) => Some(c),
            _ => None,
        },
    }
}

/// The document's members with the chart kind and size, the series and the
/// labels laid over them; `None` where its `chart` member is not an object.
pub open spec fn overlaid(
    doc: Seq<(Seq<char>, Seq<char>)>,
    chart_type: ChartType,
    series: Seq<char>,
    labels: Option<Seq<char>>,
) -> Option<Seq<char>> {
    match chart_members(member_value(doc, "chart"@)) {
        None => None,
        Some(c) => {
            let c1 = with_member(c, "type"@, json_quoted(chart_type.spec_name()));
            let c2 = with_member(c1, "width"@, json_quoted("100%"@));
            let c3 = with_member(c2, "height"@, json_quoted("auto"@));
            let d1 = with_member(doc, "chart"@, json_object(c3));
            let d2 = with_member(d1, "series"@, series);
            Some(
                match labels {
                    Some(l) => json_object(with_member(d2, "labels"@, l)),
                    None => json_object(d2),
                },
            )
        },
    }
}

/// `k` set to `v` in the members.
pub fn set_member(m: &Vec<(String, String)>, k: &String, v: &String) -> (r: Vec<(String, String)>)
    ensures
        member_texts(r@) == with_member(member_texts(m@), k@, v@),
{
    let ghost mt = member_texts(m@);
    let ghost f = |e: (Seq<char>, Seq<char>)|
        if e.0 == k@ {
            (k@, v@)
        } else {
            e
        };
    let mut out: Vec<(String, String)> = Vec::new();
    let mut found = false;
    let mut i: usize = 0;
    while i < m.len()
        invariant
            0 <= i <= m.len(),
            mt == member_texts(m@),
            f == (|e: (Seq<char>, Seq<char>)|
                if e.0 == k@ {
                    (k@, v@)
                } else {
                    e
                }),
            member_texts(out@) =~= mt.take(i as int).map_values(f),
            found == has_key(mt.take(i as int), k@),
        decreases m.len() - i,
    {
        let ghost before = out@;
        if m[i].0 == *k {
            out.push((k.clone(), v.clone()));
            found = true;
        } else {
            out.push((m[i].0.clone(), m[i].1.clone()));
        }
        proof {
            assert(mt.take(i + 1) =~= mt.take(i as int).push(mt[i as int]));
            assert(member_texts(out@) =~= member_texts(before).push(f(mt[i as int])));
            if has_key(mt.take(i as int), k@) {
                let j = choose|j: int| 0 <= j < i && #[trigger] mt.take(i as int)[j].0 == k@;
                assert(mt.take(i + 1)[j].0 == k@);
            }
            if has_key(mt.take(i + 1), k@) && !found {
                let j = choose|j: int| 0 <= j < i + 1 && #[trigger] mt.take(i + 1)[j].0 == k@;
                assert(mt.take(i as int)[j].0 == k@);
            }
            if found && !has_key(mt.take(i as int), k@) {
                assert(mt.take(i + 1)[i as int].0 == k@);
            }
        }
        i += 1;
    }
    proof {
        assert(mt.take(m.len() as int) =~= mt);
    }
    if !found {
        let ghost before = out@;
        out.push((k.clone(), v.clone()));
        proof {
            assert forall|j: int| 0 <= j < mt.len() implies #[trigger] mt.map_values(f)[j]
                == mt[j] by {
                if mt[j].0 == k@ {
                    assert(has_key(mt, k@));
                }
            }
            assert(member_texts(before) =~= mt);
            assert(member_texts(out@) =~= member_texts(before).push((k@, v@)));
        }
    }
    out
}

/// The value of the last member named `k`.
pub fn get_member(m: &Vec<(String, String)>, k: &String) -> (r: Option<String>)
    ensures
        member_value(member_texts(m@), k@) == (match r {
            Some(t) => Some(t@),
            None => None,
        }),
{
    let ghost mt = member_texts(m@);
    let mut found: Option<String> = None;
    let mut i: usize = 0;
    while i < m.len()
        invariant
            0 <= i <= m.len(),
            mt == member_texts(m@),
            member_value(mt.take(i as int), k@) == (match found {
                Some(t) => Some(t@),
                None => None,
            }),
        decreases m.len() - i,
    {
        if m[i].0 == *k {
            found = Some(m[i].1.clone());
        }
        assert(mt.take(i + 1).drop_last() =~= mt.take(i as int));
        i += 1;
    }
    assert(mt.take(m.len() as int) =~= mt);
    found
}

/// The values of labelled shares, as a JSON array of numbers.
pub open spec fn radial_values_json(points: Seq<(String, JsonNumber)>) -> Seq<char> {
    json_array(points.map_values(|p: (String, JsonNumber)| p.1@))
}

/// The labels of labelled shares, as a JSON array of strings.
pub open spec fn radial_labels_json(points: Seq<(String, JsonNumber)>) -> Seq<char> {
    json_array(points.map_values(|p: (String, JsonNumber)| json_quoted(p.0@)))
}

/// The `series` value of the options document, and its `labels` value if it
/// has one. Pie, donut and radial bar charts take the values of the first
/// series as plain numbers and its labels apart, when that series holds
/// labelled shares; they take an empty array when there is no series. All
/// other cases take the series objects.
pub open spec fn series_payload(chart_type: ChartType, series: Seq<ChartSeries>) -> (
    Seq<char>,
    Option<Seq<char>>,
) {
    if chart_type.spec_is_radial() {
        if series.len() == 0 {
            (json_array(Seq::empty()), None)
        } else {
            match series[0].data {
                SeriesData::Radial(points) => (
                    radial_values_json(points@),
                    Some(radial_labels_json(points@)),
                ),
                _ => (series_list_json(series), None),
            }
        }
    } else {
        (series_list_json(series), None)
    }
}

fn radial_values_text(points: &Vec<(String, JsonNumber)>) -> (r: String)
    ensures
        r@ == radial_values_json(points@),
{
    let mut parts: Vec<String> = Vec::new();
    let mut i: usize = 0;
    while i < points.len()
        invariant
            0 <= i <= points.len(),
            texts(parts@) =~= points@.take(i as int).map_values(|p: (String, JsonNumber)| p.1@),
        decreases points.len() - i,
    {
        let part = String::from_str(points[i].1.as_str());
        let ghost before = parts@;
        parts.push(part);
        proof {
            assert(points@.take(i + 1) =~= points@.take(i as int).push(points@[i as int]));
            assert(texts(parts@) =~= texts(before).push(part@));
        }
        i += 1;
    }
    assert(points@.take(points.len() as int) =~= points@);
    array_text(&parts)
}

fn radial_labels_text(points: &Vec<(String, JsonNumber)>) -> (r: String)
    ensures
        r@ == radial_labels_json(points@),
{
    let mut parts: Vec<String> = Vec::new();
    let mut i: usize = 0;
    while i < points.len()
        invariant
            0 <= i <= points.len(),
            texts(parts@) =~= points@.take(i as int).map_values(
                |p: (String, JsonNumber)| json_quoted(p.0@),
            ),
        decreases points.len() - i,
    {
        let part = quote(points[i].0.as_str());
        let ghost before = parts@;
        parts.push(part);
        proof {
            assert(points@.take(i + 1) =~= points@.take(i as int).push(points@[i as int]));
            assert(texts(parts@) =~= texts(before).push(part@));
        }
        i += 1;
    }
    assert(points@.take(points.len() as int) =~= points@);
    array_text(&parts)
}

/// The `series` value of the options document for this chart kind, and its
/// `labels` value if it has one.
pub fn chart_series_json(chart_type: ChartType, series: &Vec<ChartSeries>) -> (r: (
    String,
    Option<String>,
))
    ensures
        r.0@ == series_payload(chart_type, series@).0,
        series_payload(chart_type, series@).1 == (match r.1 {
            Some(t) => Some(t@),
            None => None,
        }),
{
    if chart_type.is_radial() {
        if series.len() == 0 {
            let empty: Vec<String> = Vec::new();
            let r = array_text(&empty);
            assert(texts(empty@) =~= Seq::empty());
            (r, None)
        } else {
            match &series[0].data {
                SeriesData::Radial(points) => (
                    radial_values_text(points),
                    Some(radial_labels_text(points)),
                ),
                _ => (series_list_text(series), None),
            }
        }
    } else {
        (series_list_text(series), None)
    }
}

/// The members of the `chart` settings read from the text of the `chart`
/// member, if there is one.
fn read_chart_members(chart: &Option<String>) -> (r: Option<Vec<(String, String)>>)
    ensures
        chart_members(
            match chart {
                Some(t) => Some(t@),
                None => None,
            },
        ) == (match r {
            Some(c) => Some(member_texts(c@)),
            None => None,
        }),
{
    match chart {
        None => {
            let c: Vec<(String, String)> = Vec::new();
            assert(member_texts(c@) =~= Seq::empty());
            Some(c)
        },
        Some(t) => match parse_document(t.as_str()) {
            ParsedDocument::Null => {
                let c: Vec<(String, String)> = Vec::new();
                assert(member_texts(c@) =~= Seq::empty());
                Some(c)
            },
            ParsedDocument::Object(c) => Some(c),
            _ => None,
        },
    }
}

/// Lays the chart kind and size, the series and the labels over the members
/// of an options document, and writes the document out. `None` where its
/// `chart` member holds a value other than an object or `null`.
pub fn overlay_document(
    doc: &Vec<(String, String)>,
    chart_type: ChartType,
    series: &String,
    labels: &Option<String>,
) -> (r: Option<String>)
    ensures
        overlaid(
            member_texts(doc@),
            chart_type,
            series@,
            match labels {
                Some(l) => Some(l@),
                None => None,
            },
        ) == (match r {
            Some(t) => Some(t@),
            None => None,
        }),
{
    let chart_key = String::from_str("chart");
    let chart = get_member(doc, &chart_key);
    let c = match read_chart_members(&chart) {
        Some(c) => c,
        None => return None,
    };
    let kind = chart_type.to_string();
    let c1 = set_member(&c, &String::from_str("type"), &quote(kind.as_str()));
    let c2 = set_member(&c1, &String::from_str("width"), &quote("100%"));
    let c3 = set_member(&c2, &String::from_str("height"), &quote("auto"));
    let d1 = set_member(doc, &chart_key, &object_text(&c3));
    let d2 = set_member(&d1, &String::from_str("series"), series);
    match labels {
        Some(l) => {
            let d3 = set_member(&d2, &String::from_str("labels"), l);
            Some(object_text(&d3))
        },
        None => Some(object_text(&d2)),
    }
}

/// The result of building the options document from a caller's text.
pub open spec fn spec_chart_options(
    chart_type: ChartType,
    series: Seq<ChartSeries>,
    options: Seq<char>,
) -> Result<Seq<char>, OptionsError> {
    let payload = series_payload(chart_type, series);
    let doc = if options.len() == 0 {
        Ok(Seq::empty())
    } else {
        match json_document(options) {
            DocumentView::Invalid => Err(OptionsError::InvalidJson),
            DocumentView::Null => Ok(Seq::empty()),
            DocumentView::Object(m) => Ok(m),
            DocumentView::Other => Err(OptionsError::NotAnObject),
        }
    };
    match doc {
        Err(e) => Err(e),
        Ok(m) => match overlaid(m, chart_type, payload.0, payload.1) {
            Some(t) => Ok(t),
            None => Err(OptionsError::ChartNotAnObject),
        },
    }
}

/// The options document for a chart: the caller's `options` (an empty text
/// stands for an empty document) with the chart kind, a width of `100%`, a
/// height of `auto`, the series and, for pie, donut and radial bar charts of
/// labelled shares, the labels laid over it.
pub fn chart_options(chart_type: ChartType, series: &Vec<ChartSeries>, options: &str) -> (r: Result<
    String,
    OptionsError,
>)
    ensures
        spec_chart_options(chart_type, series@, options@) == (match r {
            Ok(t) => Ok(t@),
            Err(e) => Err(e),
        }),
{
    let (series_json, labels) = chart_series_json(chart_type, series);
    let doc: Vec<(String, String)> = if options.unicode_len() == 0 {
        let empty: Vec<(String, String)> = Vec::new();
        assert(member_texts(empty@) =~= Seq::empty());
        empty
    } else {
        match parse_document(options) {
            ParsedDocument::Invalid => return Err(OptionsError::InvalidJson),
            ParsedDocument::Null => {
                let empty: Vec<(String, String)> = Vec::new();
                assert(member_texts(empty@) =~= Seq::empty());
                empty
            },
            ParsedDocument::Object(m) => m,
            ParsedDocument::Other => return Err(OptionsError::NotAnObject),
        }
    };
    match overlay_document(&doc, chart_type, &series_json, &labels) {
        Some(t) => Ok(t),
        None => Err(OptionsError::ChartNotAnObject),
    }
}

} // verus!
