use vstd::prelude::*;
use vstd::string::*;

verus! {

/// Column names of the per-step data file.
pub const CSV_HEADER: &'static str = "time,missile_x,missile_y,missile_z,missile_vx,missile_vy,missile_vz,target_x,target_y,target_z,target_vx,target_vy,target_vz,distance,acceleration,los_rate,closing_speed,hit";

/// Column names of the summary file that collects one row per run.
pub const SUMMARY_HEADER: &'static str = "scenario,guidance_law,duration,miss_distance,hit,timesteps";

/// `{dir}/{scenario}_{guidance}.{extension}`.
pub open spec fn run_file_text(
    dir: Seq<char>,
    scenario: Seq<char>,
    guidance: Seq<char>,
    extension: Seq<char>,
) -> Seq<char> {
    dir + "/"@ + scenario + "_"@ + guidance + "."@ + extension
}

fn run_file(dir: &str, scenario_name: &str, guidance_name: &str, extension: &str) -> (r: String)
    ensures
        r@ == run_file_text(dir@, scenario_name@, guidance_name@, extension@),
{
    let mut r = String::from_str(dir);
    r.append("/");
    r.append(scenario_name);
    r.append("_");
    r.append(guidance_name);
    r.append(".");
    r.append(extension);
    r
}

/// Directory of the per-step data files: `{output_dir}/csv`.
pub fn csv_dir(output_dir: &str) -> (r: String)
    ensures
        r@ == output_dir@ + "/csv"@,
{
    let mut r = String::from_str(output_dir);
    r.append("/csv");
    r
}

/// Directory of the run descriptions: `{output_dir}/json`.
pub fn json_dir(output_dir: &str) -> (r: String)
    ensures
        r@ == output_dir@ + "/json"@,
{
    let mut r = String::from_str(output_dir);
    r.append("/json");
    r
}

/// Per-step data file of one run: `{dir}/{scenario}_{guidance}.csv`.
pub fn csv_file(dir: &str, scenario_name: &str, guidance_name: &str) -> (r: String)
    ensures
        r@ == run_file_text(dir@, scenario_name@, guidance_name@, "csv"@),
{
    run_file(dir, scenario_name, guidance_name, "csv")
}

/// Description of one run: `{dir}/{scenario}_{guidance}.json`.
pub fn json_file(dir: &str, scenario_name: &str, guidance_name: &str) -> (r: String)
    ensures
        r@ == run_file_text(dir@, scenario_name@, guidance_name@, "json"@),
{
    run_file(dir, scenario_name, guidance_name, "json")
}

/// Summary file shared by all runs: `{output_dir}/summary.csv`.
pub fn summary_file(output_dir: &str) -> (r: String)
    ensures
        r@ == output_dir@ + "/summary.csv"@,
{
    let mut r = String::from_str(output_dir);
    r.append("/summary.csv");
    r
}

} // verus!
