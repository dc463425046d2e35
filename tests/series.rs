use apexcharts_rs::{int_text, ChartSeries, ChartType, JsonNumber, SeriesData};

fn num(s: &str) -> JsonNumber {
    JsonNumber::parse(s).unwrap()
}

#[test]
pub fn test_series_data_serialization() {
    let single_data = SeriesData::Single(vec![10, 20, 30]).to_json();
    assert_eq!(single_data, "[10,20,30]");

    let numeric_paired_data = SeriesData::NumericPaired(vec![(10, 20), (20, 30)]).to_json();
    assert_eq!(numeric_paired_data, "[[10,20],[20,30]]");

    let category_paired_data = SeriesData::CategoryPaired(vec![
        ("Apple".to_string(), 30),
        ("Banana".to_string(), 40),
    ])
    .to_json();
    assert_eq!(
        category_paired_data,
        r#"[{"x":"Apple","y":30},{"x":"Banana","y":40}]"#
    );

    let timestamped_data =
        SeriesData::Timestamped(vec![(1619683200, 30), (1619769600, 40)]).to_json();
    assert_eq!(timestamped_data, "[[1619683200,30],[1619769600,40]]");

    let dated_data = SeriesData::Dated(vec![
        ("2021-04-29".to_string(), 30),
        ("2021-04-30".to_string(), 40),
    ])
    .to_json();
    assert_eq!(
        dated_data,
        r#"[{"x":"2021-04-29","y":30},{"x":"2021-04-30","y":40}]"#
    );
}

#[test]
fn empty_data_is_an_empty_array() {
    assert_eq!(SeriesData::Single(vec![]).to_json(), "[]");
    assert_eq!(SeriesData::Dated(vec![]).to_json(), "[]");
    assert_eq!(SeriesData::CandleStick(vec![]).to_json(), "[]");
}

#[test]
fn negative_and_extreme_integers() {
    assert_eq!(int_text(0), "0");
    assert_eq!(int_text(-5), "-5");
    assert_eq!(int_text(i64::MAX), "9223372036854775807");
    assert_eq!(int_text(i64::MIN), "-9223372036854775808");
    assert_eq!(
        SeriesData::NumericPaired(vec![(-1, 100)]).to_json(),
        "[[-1,100]]"
    );
}

#[test]
fn radial_data_serialization() {
    let data = SeriesData::Radial(vec![
        ("Apple".to_string(), num("30.5")),
        ("Banana".to_string(), JsonNumber::from_int(40)),
    ]);
    assert_eq!(
        data.to_json(),
        r#"[{"x":"Apple","y":30.5},{"x":"Banana","y":40}]"#
    );
}

#[test]
fn candlestick_data_serialization() {
    let data = SeriesData::CandleStick(vec![
        (
            "Sun".to_string(),
            vec![num("10.0"), num("20.0"), num("5.0"), num("15.0")],
        ),
        ("Mon".to_string(), vec![]),
    ]);
    assert_eq!(
        data.to_json(),
        r#"[{"x":"Sun","y":[10.0,20.0,5.0,15.0]},{"x":"Mon","y":[]}]"#
    );
}

#[test]
fn numbers_are_read_as_json_numbers() {
    assert_eq!(num("5").as_str(), "5");
    assert_eq!(num("-7").as_str(), "-7");
    assert_eq!(num("2.5").as_str(), "2.5");
    assert_eq!(num("1e2").as_str(), "100.0");
    assert_eq!(JsonNumber::from_int(-12).as_str(), "-12");
    assert!(JsonNumber::parse("abc").is_none());
    assert!(JsonNumber::parse("NaN").is_none());
    assert!(JsonNumber::parse("").is_none());
    assert!(JsonNumber::parse("1e400").is_none());
}

#[test]
fn labels_are_escaped() {
    let data = SeriesData::CategoryPaired(vec![("say \"hi\"\\".to_string(), 1)]);
    assert_eq!(data.to_json(), r#"[{"x":"say \"hi\"\\","y":1}]"#);
}

#[test]
fn chart_type_names() {
    let cases = [
        (ChartType::Area, "area"),
        (ChartType::Bar, "bar"),
        (ChartType::Line, "line"),
        (ChartType::BoxPlot, "boxPlot"),
        (ChartType::CandleStick, "candlestick"),
        (ChartType::RangeBar, "rangeBar"),
        (ChartType::RangeArea, "rangeArea"),
        (ChartType::HeatMap, "heatmap"),
        (ChartType::Treemap, "treemap"),
        (ChartType::Funnel, "funnel"),
        (ChartType::MultiAxis, "multiAxis"),
        (ChartType::Pie, "pie"),
        (ChartType::Donut, "donut"),
        (ChartType::Radar, "radar"),
        (ChartType::RadialBar, "radialBar"),
        (ChartType::CircularGauge, "radialBar"),
    ];
    for (t, name) in cases {
        assert_eq!(t.to_string(), name);
        assert_eq!(t.name(), name);
    }
}

#[test]
fn radial_chart_types() {
    assert!(ChartType::Pie.is_radial());
    assert!(ChartType::Donut.is_radial());
    assert!(ChartType::RadialBar.is_radial());
    assert!(!ChartType::CircularGauge.is_radial());
    assert!(!ChartType::Bar.is_radial());
}

#[test]
fn series_object_with_every_member() {
    let s = ChartSeries {
        name: "Sales".to_string(),
        data: SeriesData::Single(vec![1, 2]),
        color: "#ff0000".to_string(),
        chart_type: Some(ChartType::Bar),
        z_index: Some(-3),
    };
    assert_eq!(
        s.to_json(),
        r##"{"name":"Sales","data":[1,2],"color":"#ff0000","chart_type":"bar","z_index":-3}"##
    );
}

#[test]
fn series_object_leaves_out_unset_members() {
    let s = ChartSeries {
        name: "A".to_string(),
        data: SeriesData::Single(vec![]),
        color: "red".to_string(),
        chart_type: None,
        z_index: Some(2),
    };
    assert_eq!(
        s.to_json(),
        r#"{"name":"A","data":[],"color":"red","z_index":2}"#
    );
}
