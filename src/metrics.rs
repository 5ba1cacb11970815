use vstd::prelude::*;
use vstd::string::*;

verus! {

/// Number of samples to reserve room for before a run: one per expected step
/// plus the initial sample, but never more than `cap`.
pub open spec fn reserve_count(expected_steps: nat, cap: nat) -> nat {
    if expected_steps + 1 <= cap {
        expected_steps + 1
    } else {
        cap
    }
}

/// How many samples a run's time series reserves up front, bounded by `cap`
/// so that a tiny time step cannot demand unbounded memory.
pub fn reserved_samples(expected_steps: u64, cap: usize) -> (r: usize)
    ensures
        r == reserve_count(expected_steps as nat, cap as nat),
{
    if expected_steps < cap as u64 {
        (expected_steps + 1) as usize
    } else {
        cap
    }
}

/// The text of the hit flag: `1` for a hit, `0` for a miss.
pub open spec fn flag_text(hit: bool) -> Seq<char> {
    if hit {
        seq!['1']
    } else {
        seq!['0']
    }
}

/// The hit flag as written in summaries and data rows.
pub fn hit_flag(hit: bool) -> (r: &'static str)
    ensures
        r@ == flag_text(hit),
{
    if hit {
        proof {
            reveal_strlit("1");
        }
        "1"
    } else {
        proof {
            reveal_strlit("0");
        }
        "0"
    }
}

/// The one-line summary of a run:
/// `Travel Duration: {duration} | Miss Distance: {miss} | Hit: {0|1}`.
pub open spec fn summary_text(duration: Seq<char>, miss: Seq<char>, hit: bool) -> Seq<char> {
    "Travel Duration: "@ + duration + " | Miss Distance: "@ + miss + " | Hit: "@ + flag_text(
        hit,
    )
}

/// One-line summary of a run, from its duration and miss distance already
/// written as text.
pub fn console_summary(duration: &str, miss_distance: &str, hit: bool) -> (r: String)
    ensures
        r@ == summary_text(duration@, miss_distance@, hit),
{
    let mut r = String::from_str("Travel Duration: ");
    r.append(duration);
    r.append(" | Miss Distance: ");
    r.append(miss_distance);
    r.append(" | Hit: ");
    r.append(hit_flag(hit));
    r
}

/// How many samples back the latest separation is compared with when looking
/// for a diverging run.
pub const DIVERGENCE_WINDOW: usize = 10;

/// Index of the earlier sample that the latest separation is compared with:
/// the one `DIVERGENCE_WINDOW` samples before the latest, once there is one.
pub fn divergence_baseline(len: usize) -> (r: Option<usize>)
    ensures
        len > DIVERGENCE_WINDOW ==> r == Some((len - 1 - DIVERGENCE_WINDOW) as usize),
        len <= DIVERGENCE_WINDOW ==> r is None,
{
    if len > DIVERGENCE_WINDOW {
        Some(len - 1 - DIVERGENCE_WINDOW)
    } else {
        None
    }
}

} // verus!
