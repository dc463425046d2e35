//! The items most users of the library need.

pub use crate::assets::apexcharts_js_assets;
pub use crate::chart_type::ChartType;
pub use crate::json::JsonNumber;
pub use crate::options::{chart_options, OptionsError};
pub use crate::series::{ChartSeries, SeriesData};
