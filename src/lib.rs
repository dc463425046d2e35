//! Typed options for the ApexCharts JavaScript library: chart kinds, series
//! data and the JSON options document handed to the chart constructor.

mod assets;
mod chart_type;
mod json;
mod options;
pub mod prelude;
mod series;

pub use assets::{apexcharts_js_assets, APEXCHARTS_JS_PATH};
pub use chart_type::ChartType;
pub use json::{int_text, JsonNumber};
pub use options::{
    chart_options, chart_series_json, get_member, overlay_document, set_member, OptionsError,
};
pub use series::{series_list_text, ChartSeries, SeriesData};
