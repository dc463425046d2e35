use vstd::prelude::*;

verus! {

/// Where the ApexCharts ES module is served from.
pub const APEXCHARTS_JS_PATH: &'static str = "/node_modules/apexcharts/dist/apexcharts.esm.js";

/// The static assets a server must expose for the charts to load: each is a
/// path and the file's contents. The ApexCharts module is the only one.
pub fn apexcharts_js_assets(script: &'static str) -> (r: Vec<(&'static str, &'static str)>)
    ensures
        r@.len() == 1,
        r@[0].0@ == APEXCHARTS_JS_PATH@,
        r@[0].1 == script,
{
    vec![(APEXCHARTS_JS_PATH, script)]
}

} // verus!
