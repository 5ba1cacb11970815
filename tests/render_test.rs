use missile_sim::render::{PlottersRenderer, RenderConfig};

#[test]
fn default_render_config() {
    let c = RenderConfig::default();
    assert_eq!(c.base_output_dir, "plots");
    assert_eq!(c.width, 1024);
    assert_eq!(c.height, 768);
}

#[test]
fn trajectory_output_path_layout() {
    let c = RenderConfig::default();
    assert_eq!(
        c.trajectory_output_path("Head-On", "PPN"),
        "plots/trajectories/Head-On/PPN"
    );
}

#[test]
fn metrics_dir_layout() {
    let c = RenderConfig {
        base_output_dir: "out".to_string(),
        width: 10,
        height: 20,
    };
    assert_eq!(c.metrics_dir("S", "TPN"), "out/metrics/S/TPN");
    assert_eq!(c.metrics_dir("", ""), "out/metrics//");
}

#[test]
fn data_dir_is_fixed() {
    let c = RenderConfig {
        base_output_dir: "elsewhere".to_string(),
        width: 1,
        height: 1,
    };
    assert_eq!(c.data_dir(), "data");
}

#[test]
fn renderer_file_names() {
    let r = PlottersRenderer::new();
    assert_eq!(r, PlottersRenderer::default());
    assert_eq!(
        r.trajectory_file("plots/trajectories/A", "LP"),
        "plots/trajectories/A/LP_trajectory.png"
    );
    assert_eq!(r.trajectory_title("Spiral-Evasion", "APN"), "Spiral-Evasion - APN");
    assert_eq!(r.metrics_base_name("plots/metrics/A", "DP"), "plots/metrics/A/DP");
}

#[test]
fn metrics_chart_is_two_thirds() {
    let r = PlottersRenderer::new();
    assert_eq!(r.metrics_chart_size(&RenderConfig::default()), (682, 512));
    let big = RenderConfig {
        base_output_dir: String::new(),
        width: u32::MAX,
        height: 0,
    };
    assert_eq!(r.metrics_chart_size(&big), (2863311530, 0));
}
