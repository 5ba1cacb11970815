use vstd::prelude::*;

verus! {

/// Most steps a run may take when `expected_steps` steps reach its end time:
/// one more than that, to absorb rounding in the elapsed time.
pub open spec fn step_limit(expected_steps: nat) -> nat {
    if expected_steps < u64::MAX {
        expected_steps + 1
    } else {
        u64::MAX as nat
    }
}

/// `trace` is a run of `n` steps: each state is the result of `advance` on the
/// one before, and `finished` reported `false` on every state but the last.
pub open spec fn is_run_trace<S, F: Fn(&S) -> bool, G: Fn(S) -> S>(
    trace: Seq<S>,
    n: nat,
    finished: F,
    advance: G,
) -> bool {
    &&& trace.len() == n + 1
    &&& forall|i: int| 0 <= i < n ==> #[trigger] advance.ensures((trace[i],), trace[i + 1])
    &&& forall|i: int| 0 <= i < n ==> #[trigger] finished.ensures((&trace[i],), false)
}

/// Steps a run from `state` until `finished` reports that it is done, or
/// until it has taken one step more than the `expected_steps` that reach its
/// end time. Returns the final state, the number of steps taken and what
/// `finished` reported on the final state.
///
/// The run stops at the first state on which `finished` holds, and after at
/// most `expected_steps + 1` steps whatever `finished` reports.
pub fn run_until_done<S, F: Fn(&S) -> bool, G: Fn(S) -> S>(
    state: S,
    finished: F,
    advance: G,
    expected_steps: u64,
) -> (r: (S, u64, bool))
    requires
        forall|s: S| #[trigger] finished.requires((&s,)),
        forall|s: S| #[trigger] advance.requires((s,)),
    ensures
        r.1 <= step_limit(expected_steps as nat),
        !r.2 ==> r.1 == step_limit(expected_steps as nat),
        finished.ensures((&r.0,), r.2),
        exists|trace: Seq<S>|
            {
                &&& is_run_trace(trace, r.1 as nat, finished, advance)
                &&& trace[0] == state
                &&& trace[r.1 as int] == r.0
            },
{
    let limit: u64 = if expected_steps < u64::MAX {
        expected_steps + 1
    } else {
        u64::MAX
    };
    let ghost init = state;
    let mut state = state;
    let mut steps: u64 = 0;
    let mut done = finished(&state);
    let ghost mut trace: Seq<S> = seq![state];
    while !done && steps < limit
        invariant
            steps <= limit,
            limit == step_limit(expected_steps as nat),
            forall|s: S| #[trigger] finished.requires((&s,)),
            forall|s: S| #[trigger] advance.requires((s,)),
            finished.ensures((&state,), done),
            is_run_trace(trace, steps as nat, finished, advance),
            trace[0] == init,
            trace[steps as int] == state,
        decreases limit - steps,
    {
        proof {
            assert(finished.ensures((&trace[steps as int],), false));
        }
        state = advance(state);
        steps = steps + 1;
        proof {
            trace = trace.push(state);
            assert(advance.ensures((trace[steps - 1],), trace[steps as int]));
        }
        done = finished(&state);
    }
    (state, steps, done)
}

} // verus!
