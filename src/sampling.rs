//! Per-pixel sampling: a pixel's radiance is estimated from a number of
//! independent samples, added one after the other to a running sum.
//!
//! The caller hands in `sample(state)`, which draws one jittered camera ray
//! with its own random generator `state` and returns the radiance found along
//! it, and `accumulate(sum, color)`, which adds a sample to the running sum.
//! Each draw receives the state that the one before it left, so no two
//! samples share random numbers.

use vstd::prelude::*;

verus! {

/// `out` (final state and sum) is a possible outcome of drawing `n` samples
/// from `state` and adding them in turn to `zero`: draw `i` starts from
/// `states[i]`, leaves `states[i + 1]` and yields `samples[i]`, and `sums[i]`
/// is the running sum before it.
pub open spec fn is_sample_sum<G, C, S, A>(
    sample: S,
    accumulate: A,
    zero: C,
    state: G,
    n: nat,
    out: (G, C),
    states: Seq<G>,
    samples: Seq<C>,
    sums: Seq<C>,
) -> bool where S: Fn(G) -> (G, C), A: Fn(C, C) -> C {
    &&& states.len() == n + 1
    &&& samples.len() == n
    &&& sums.len() == n + 1
    &&& states[0] == state
    &&& sums[0] == zero
    &&& out == (states[n as int], sums[n as int])
    &&& forall|i: int|
        0 <= i < n ==> call_ensures(sample, (states[i],), (states[i + 1], #[trigger] samples[i]))
            && call_ensures(accumulate, (sums[i], samples[i]), sums[i + 1])
}

/// Draws `n` samples, threading the caller's state from each draw to the
/// next, and adds them in order to `zero`. Returns the last state and the sum.
pub fn sample_sum<G, C: Copy, S, A>(
    sample: &S,
    accumulate: &A,
    zero: C,
    state: G,
    n: usize,
) -> (r: (G, C)) where S: Fn(G) -> (G, C), A: Fn(C, C) -> C
    requires
        forall|g: G| call_requires(*sample, (g,)),
        forall|a: C, b: C| call_requires(*accumulate, (a, b)),
    ensures
        exists|states: Seq<G>, samples: Seq<C>, sums: Seq<C>|
            #[trigger] is_sample_sum(
                *sample,
                *accumulate,
                zero,
                state,
                n as nat,
                r,
                states,
                samples,
                sums,
            ),
        n == 0 ==> r == (state, zero),
{
    let ghost start = state;
    let mut state = state;
    let mut sum = zero;
    let ghost mut states: Seq<G> = seq![start];
    let ghost mut samples: Seq<C> = seq![];
    let ghost mut sums: Seq<C> = seq![zero];
    let mut i: usize = 0;
    while i < n
        invariant
            i <= n,
            forall|g: G| call_requires(*sample, (g,)),
            forall|a: C, b: C| call_requires(*accumulate, (a, b)),
            is_sample_sum(
                *sample,
                *accumulate,
                zero,
                start,
                i as nat,
                (state, sum),
                states,
                samples,
                sums,
            ),
        decreases n - i,
    {
        let ghost before = state;
        let (next, color) = sample(state);
        let total = accumulate(sum, color);
        proof {
            states = states.push(next);
            samples = samples.push(color);
            sums = sums.push(total);
            assert forall|k: int| 0 <= k < i + 1 implies call_ensures(
                *sample,
                (states[k],),
                (states[k + 1], #[trigger] samples[k]),
            ) && call_ensures(*accumulate, (sums[k], samples[k]), sums[k + 1]) by {
                if k < i {
                    assert(states[k] == states.drop_last()[k]);
                }
            }
        }
        state = next;
        sum = total;
        i += 1;
    }
    (state, sum)
}

/// With one sample per pixel the sum is that one sample added to `zero`: a
/// single draw from the starting state, and nothing else.
pub proof fn lemma_single_sample<G, C, S, A>(
    sample: S,
    accumulate: A,
    zero: C,
    state: G,
    out: (G, C),
    states: Seq<G>,
    samples: Seq<C>,
    sums: Seq<C>,
) where S: Fn(G) -> (G, C), A: Fn(C, C) -> C
    requires
        is_sample_sum(sample, accumulate, zero, state, 1, out, states, samples, sums),
    ensures
        call_ensures(sample, (state,), (out.0, samples[0])),
        call_ensures(accumulate, (zero, samples[0]), out.1),
{
    assert(call_ensures(sample, (states[0],), (states[1], samples[0])));
}

} // verus!
