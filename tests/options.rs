use apexcharts_rs::{
    apexcharts_js_assets, chart_options, chart_series_json, get_member, overlay_document,
    series_list_text, set_member, ChartSeries, ChartType, JsonNumber, OptionsError, SeriesData,
    APEXCHARTS_JS_PATH,
};

fn single(name: &str, values: Vec<i64>) -> ChartSeries {
    ChartSeries {
        name: name.to_string(),
        data: SeriesData::Single(values),
        color: "blue".to_string(),
        chart_type: None,
        z_index: None,
    }
}

fn shares() -> ChartSeries {
    ChartSeries {
        name: "Fruit".to_string(),
        data: SeriesData::Radial(vec![
            ("Apple".to_string(), JsonNumber::from_int(30)),
            ("Banana".to_string(), JsonNumber::from_int(70)),
        ]),
        color: "green".to_string(),
        chart_type: None,
        z_index: None,
    }
}

fn members(pairs: &[(&str, &str)]) -> Vec<(String, String)> {
    pairs
        .iter()
        .map(|(k, v)| (k.to_string(), v.to_string()))
        .collect()
}

#[test]
fn default_document_for_a_line_chart() {
    let r = chart_options(ChartType::Line, &vec![single("A", vec![1, 2])], "").unwrap();
    assert_eq!(
        r,
        r#"{"chart":{"type":"line","width":"100%","height":"auto"},"series":[{"name":"A","data":[1,2],"color":"blue"}]}"#
    );
}

#[test]
fn default_document_for_a_pie_chart() {
    let r = chart_options(ChartType::Pie, &vec![shares()], "").unwrap();
    assert_eq!(
        r,
        r#"{"chart":{"type":"pie","width":"100%","height":"auto"},"series":[30,70],"labels":["Apple","Banana"]}"#
    );
}

#[test]
fn pie_chart_without_series() {
    let r = chart_options(ChartType::Donut, &vec![], "").unwrap();
    assert_eq!(
        r,
        r#"{"chart":{"type":"donut","width":"100%","height":"auto"},"series":[]}"#
    );
}

#[test]
fn pie_chart_with_plain_series_keeps_the_objects() {
    let (series, labels) = chart_series_json(ChartType::RadialBar, &vec![single("S", vec![4])]);
    assert_eq!(series, r#"[{"name":"S","data":[4],"color":"blue"}]"#);
    assert!(labels.is_none());
}

#[test]
fn circular_gauge_takes_series_objects() {
    let (series, labels) = chart_series_json(ChartType::CircularGauge, &vec![shares()]);
    assert_eq!(
        series,
        r#"[{"name":"Fruit","data":[{"x":"Apple","y":30},{"x":"Banana","y":70}],"color":"green"}]"#
    );
    assert!(labels.is_none());
}

#[test]
fn series_list_in_order() {
    let text = series_list_text(&vec![single("A", vec![1]), single("B", vec![])]);
    assert_eq!(
        text,
        r#"[{"name":"A","data":[1],"color":"blue"},{"name":"B","data":[],"color":"blue"}]"#
    );
}

#[test]
fn caller_options_are_kept() {
    let r = chart_options(
        ChartType::Bar,
        &vec![single("S", vec![5])],
        r#"{"title":{"text":"Sales"},"chart":{"toolbar":{"show":false}}}"#,
    )
    .unwrap();
    assert_eq!(
        r,
        r#"{"chart":{"toolbar":{"show":false},"type":"bar","width":"100%","height":"auto"},"title":{"text":"Sales"},"series":[{"name":"S","data":[5],"color":"blue"}]}"#
    );
}

#[test]
fn caller_chart_settings_are_overridden_in_place() {
    let r = chart_options(
        ChartType::Line,
        &vec![],
        r#"{"chart":{"height":300,"type":"area"},"series":[1]}"#,
    )
    .unwrap();
    assert_eq!(
        r,
        r#"{"chart":{"height":"auto","type":"line","width":"100%"},"series":[]}"#
    );
}

#[test]
fn labels_are_added_to_caller_options() {
    let r = chart_options(ChartType::Donut, &vec![shares()], r#"{"legend":{"show":true}}"#)
        .unwrap();
    assert_eq!(
        r,
        r#"{"legend":{"show":true},"chart":{"type":"donut","width":"100%","height":"auto"},"series":[30,70],"labels":["Apple","Banana"]}"#
    );
}

#[test]
fn null_options_are_an_empty_document() {
    let a = chart_options(ChartType::Area, &vec![single("A", vec![1])], "null").unwrap();
    let b = chart_options(ChartType::Area, &vec![single("A", vec![1])], "").unwrap();
    assert_eq!(a, b);
    let c = chart_options(ChartType::Area, &vec![], r#"{"chart":null}"#).unwrap();
    assert_eq!(
        c,
        r#"{"chart":{"type":"area","width":"100%","height":"auto"},"series":[]}"#
    );
}

#[test]
fn options_that_are_not_json() {
    assert_eq!(
        chart_options(ChartType::Bar, &vec![], "{not json"),
        Err(OptionsError::InvalidJson)
    );
}

#[test]
fn options_that_are_not_an_object() {
    assert_eq!(
        chart_options(ChartType::Bar, &vec![], "[1,2]"),
        Err(OptionsError::NotAnObject)
    );
    assert_eq!(
        chart_options(ChartType::Bar, &vec![], "5"),
        Err(OptionsError::NotAnObject)
    );
}

#[test]
fn chart_member_that_is_not_an_object() {
    assert_eq!(
        chart_options(ChartType::Bar, &vec![], r#"{"chart":5}"#),
        Err(OptionsError::ChartNotAnObject)
    );
}

#[test]
fn overlay_on_members() {
    let doc = members(&[("series", "[9]"), ("colors", "[\"red\"]")]);
    let r = overlay_document(
        &doc,
        ChartType::Radar,
        &"[1]".to_string(),
        &Some("[\"a\"]".to_string()),
    )
    .unwrap();
    assert_eq!(
        r,
        r#"{"series":[1],"colors":["red"],"chart":{"type":"radar","width":"100%","height":"auto"},"labels":["a"]}"#
    );
    let bad = members(&[("chart", "\"x\"")]);
    assert!(overlay_document(&bad, ChartType::Bar, &"[]".to_string(), &None).is_none());
}

#[test]
fn set_member_replaces_or_appends() {
    let m = members(&[("a", "1"), ("b", "2")]);
    assert_eq!(
        set_member(&m, &"b".to_string(), &"3".to_string()),
        members(&[("a", "1"), ("b", "3")])
    );
    assert_eq!(
        set_member(&m, &"c".to_string(), &"4".to_string()),
        members(&[("a", "1"), ("b", "2"), ("c", "4")])
    );
    assert_eq!(
        set_member(&vec![], &"a".to_string(), &"0".to_string()),
        members(&[("a", "0")])
    );
}

#[test]
fn get_member_finds_the_last() {
    let m = members(&[("a", "1"), ("b", "2"), ("a", "3")]);
    assert_eq!(get_member(&m, &"a".to_string()), Some("3".to_string()));
    assert_eq!(get_member(&m, &"b".to_string()), Some("2".to_string()));
    assert_eq!(get_member(&m, &"z".to_string()), None);
}

#[test]
fn assets_list_the_module() {
    let assets = apexcharts_js_assets("export default 1;");
    assert_eq!(
        assets,
        vec![(
            "/node_modules/apexcharts/dist/apexcharts.esm.js",
            "export default 1;"
        )]
    );
    assert_eq!(assets[0].0, APEXCHARTS_JS_PATH);
}
