use vstd::prelude::*;
use vstd::string::*;

verus! {

/// Where the output of all runs is placed, and the size of the images.
#[derive(Debug, Clone)]
pub struct RenderConfig {
    pub base_output_dir: String,
    pub width: u32,
    pub height: u32,
}

impl Default for RenderConfig {
    fn default() -> (r: RenderConfig)
        ensures
            r.base_output_dir@ == seq!['p', 'l', 'o', 't', 's'],
            r.width == 1024,
            r.height == 768,
    {
        proof {
            reveal_strlit("plots");
        }
        RenderConfig { base_output_dir: String::from_str("plots"), width: 1024, height: 768 }
    }
}

impl RenderConfig {
    /// Directory of the trajectory images of one scenario under one law:
    /// `{base}/trajectories/{scenario}/{guidance}`.
    pub fn trajectory_output_path(&self, scenario_name: &str, guidance_type: &str) -> (r: String)
        ensures
            r@ == self.base_output_dir@ + "/trajectories/"@ + scenario_name@ + "/"@
                + guidance_type@,
    {
        let mut r = self.base_output_dir.clone();
        r.append("/trajectories/");
        r.append(scenario_name);
        r.append("/");
        r.append(guidance_type);
        r
    }

    /// Directory of the metric charts of one scenario under one law:
    /// `{base}/metrics/{scenario}/{guidance}`.
    pub fn metrics_dir(&self, scenario_name: &str, guidance_type: &str) -> (r: String)
        ensures
            r@ == self.base_output_dir@ + "/metrics/"@ + scenario_name@ + "/"@ + guidance_type@,
    {
        let mut r = self.base_output_dir.clone();
        r.append("/metrics/");
        r.append(scenario_name);
        r.append("/");
        r.append(guidance_type);
        r
    }

    /// Directory of the exported data files.
    pub fn data_dir(&self) -> (r: String)
        ensures
            r@ == seq!['d', 'a', 't', 'a'],
    {
        proof {
            reveal_strlit("data");
        }
        String::from_str("data")
    }
}

/// Renders trajectory and metric charts of a run into image files.
#[derive(Debug, Clone, Copy, PartialEq, Eq)]
pub struct PlottersRenderer;

impl Default for PlottersRenderer {
    fn default() -> (r: PlottersRenderer) {
        PlottersRenderer
    }
}

impl PlottersRenderer {
    pub fn new() -> (r: PlottersRenderer) {
        PlottersRenderer
    }

    /// Image file of a trajectory in `dir`: `{dir}/{guidance}_trajectory.png`.
    pub fn trajectory_file(&self, dir: &str, guidance_name: &str) -> (r: String)
        ensures
            r@ == dir@ + "/"@ + guidance_name@ + "_trajectory.png"@,
    {
        let mut r = String::from_str(dir);
        r.append("/");
        r.append(guidance_name);
        r.append("_trajectory.png");
        r
    }

    /// Title of a trajectory image: `{scenario} - {guidance}`.
    pub fn trajectory_title(&self, scenario_name: &str, guidance_name: &str) -> (r: String)
        ensures
            r@ == scenario_name@ + " - "@ + guidance_name@,
    {
        let mut r = String::from_str(scenario_name);
        r.append(" - ");
        r.append(guidance_name);
        r
    }

    /// Common prefix of the metric chart files in `dir`: `{dir}/{guidance}`.
    pub fn metrics_base_name(&self, dir: &str, guidance_name: &str) -> (r: String)
        ensures
            r@ == dir@ + "/"@ + guidance_name@,
    {
        let mut r = String::from_str(dir);
        r.append("/");
        r.append(guidance_name);
        r
    }

    /// Metric charts are two thirds of the configured image size, rounded down.
    pub fn metrics_chart_size(&self, config: &RenderConfig) -> (r: (u32, u32))
        ensures
            r.0 == config.width as int * 2 / 3,
            r.1 == config.height as int * 2 / 3,
    {
        let w = (config.width as u64) * 2 / 3;
        let h = (config.height as u64) * 2 / 3;
        (w as u32, h as u32)
    }
}

} // verus!
