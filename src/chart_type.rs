use vstd::prelude::*;

verus! {

/// The kind of chart to render.
#[derive(Clone, Copy, Debug, PartialEq, Eq, Structural)]
pub enum ChartType {
    /// An area chart.
    Area,
    /// A bar chart.
    Bar,
    /// A line chart.
    Line,
    /// A box plot chart.
    BoxPlot,
    /// A candlestick chart.
    CandleStick,
    /// A range bar chart.
    RangeBar,
    /// A range area chart.
    RangeArea,
    /// A heatmap chart.
    HeatMap,
    /// A treemap chart.
    Treemap,
    /// A funnel chart.
    Funnel,
    /// A multi-axis chart.
    MultiAxis,
    /// A pie chart; its data is expected as `SeriesData::Radial`.
    Pie,
    /// A donut chart; its data is expected as `SeriesData::Radial`.
    Donut,
    /// A radar chart.
    Radar,
    /// A radial bar chart; its data is expected as `SeriesData::Radial`.
    RadialBar,
    /// A circular gauge, drawn by ApexCharts as a radial bar chart.
    CircularGauge,
}

impl ChartType {
    /// The name ApexCharts knows this chart kind by.
    pub open spec fn spec_name(self) -> Seq<char> {
        match self {
            ChartType::Area => "area"@,
            ChartType::Bar => "bar"@,
            ChartType::Line => "line"@,
            ChartType::BoxPlot => "boxPlot"@,
            ChartType::CandleStick => "candlestick"@,
            ChartType::RangeBar => "rangeBar"@,
            ChartType::RangeArea => "rangeArea"@,
            ChartType::HeatMap => "heatmap"@,
            ChartType::Treemap => "treemap"@,
            ChartType::Funnel => "funnel"@,
            ChartType::MultiAxis => "multiAxis"@,
            ChartType::Pie => "pie"@,
            ChartType::Donut => "donut"@,
            ChartType::Radar => "radar"@,
            ChartType::RadialBar => "radialBar"@,
            ChartType::CircularGauge => "radialBar"@,
        }
    }

    /// Whether the chart takes one series of labelled values
    /// (pie, donut and radial bar charts).
    pub open spec fn spec_is_radial(self) -> bool {
        self == ChartType::Pie || self == ChartType::Donut || self == ChartType::RadialBar
    }

    pub fn name(&self) -> (r: &'static str)
        ensures
            r@ == self.spec_name(),
    {
        match self {
            ChartType::Area => "area",
            ChartType::Bar => "bar",
            ChartType::Line => "line",
            ChartType::BoxPlot => "boxPlot",
            ChartType::CandleStick => "candlestick",
            ChartType::RangeBar => "rangeBar",
            ChartType::RangeArea => "rangeArea",
            ChartType::HeatMap => "heatmap",
            ChartType::Treemap => "treemap",
            ChartType::Funnel => "funnel",
            ChartType::MultiAxis => "multiAxis",
            ChartType::Pie => "pie",
            ChartType::Donut => "donut",
            ChartType::Radar => "radar",
            ChartType::RadialBar => "radialBar",
            ChartType::CircularGauge => "radialBar",
        }
    }

    /// The name as an owned string, as written into the options document.
    pub fn to_string(&self) -> (r: String)
        ensures
            r@ == self.spec_name(),
    {
        String::from_str(self.name())
    }

    pub fn is_radial(&self) -> (r: bool)
        ensures
            r == self.spec_is_radial(),
    {
        match self {
            ChartType::Pie | ChartType::Donut | ChartType::RadialBar => true,
            _ => false,
        }
    }
}

} // verus!
