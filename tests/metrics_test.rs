use missile_sim::export::{
    csv_dir, csv_file, json_dir, json_file, summary_file, CSV_HEADER, SUMMARY_HEADER,
};
use missile_sim::metrics::{
    console_summary, divergence_baseline, hit_flag, reserved_samples, DIVERGENCE_WINDOW,
};

#[test]
fn hit_flag_text() {
    assert_eq!(hit_flag(true), "1");
    assert_eq!(hit_flag(false), "0");
}

#[test]
fn console_summary_line() {
    assert_eq!(
        console_summary("9.99", "0.42", true),
        "Travel Duration: 9.99 | Miss Distance: 0.42 | Hit: 1"
    );
    assert_eq!(
        console_summary("20.00", "812.10", false),
        "Travel Duration: 20.00 | Miss Distance: 812.10 | Hit: 0"
    );
}

#[test]
fn reserve_is_capped() {
    assert_eq!(reserved_samples(1000, 1_000_000), 1001);
    assert_eq!(reserved_samples(30_000_000, 1_000_000), 1_000_000);
    assert_eq!(reserved_samples(999_999, 1_000_000), 1_000_000);
    assert_eq!(reserved_samples(0, 0), 0);
    assert_eq!(reserved_samples(u64::MAX, 7), 7);
}

#[test]
fn divergence_compares_ten_samples_back() {
    assert_eq!(DIVERGENCE_WINDOW, 10);
    assert_eq!(divergence_baseline(0), None);
    assert_eq!(divergence_baseline(9), None);
    assert_eq!(divergence_baseline(10), None);
    assert_eq!(divergence_baseline(11), Some(0));
    assert_eq!(divergence_baseline(25), Some(14));
}

#[test]
fn export_paths() {
    assert_eq!(csv_dir("data"), "data/csv");
    assert_eq!(json_dir("data"), "data/json");
    assert_eq!(csv_file("data/csv", "train_3", "PPN"), "data/csv/train_3_PPN.csv");
    assert_eq!(json_file("data/json", "train_3", "TPN"), "data/json/train_3_TPN.json");
    assert_eq!(summary_file("data"), "data/summary.csv");
}

#[test]
fn export_headers() {
    assert_eq!(CSV_HEADER.split(',').count(), 18);
    assert!(CSV_HEADER.starts_with("time,missile_x"));
    assert!(CSV_HEADER.ends_with("closing_speed,hit"));
    assert_eq!(
        SUMMARY_HEADER,
        "scenario,guidance_law,duration,miss_distance,hit,timesteps"
    );
}
