//! The path-tracing integrator's recursion.
//!
//! The radiance carried back along a ray is found by tracing the ray into the
//! scene and asking the surface it meets what it emits and what it scatters;
//! the scattered ray is followed the same way, one level shallower, until the
//! depth is spent. The geometry and the color arithmetic belong to the caller,
//! which hands them in as two functions:
//! - `trace(state, ray)` intersects the ray with the scene and reports a
//!   [`Bounce`]; `state` is the caller's random generator, passed through;
//! - `combine(emitted, attenuation, incoming)` is `emitted + attenuation ⊙ incoming`.
//!
//! A ray that leaves the scene brings back `black`: the scenes are lit by
//! their emissive surfaces alone, and the background is dark.

use vstd::prelude::*;

verus! {

/// What the scene does with one traced ray.
pub enum Bounce<C, R> {
    /// The ray hits nothing.
    Miss,
    /// The ray hits a surface that emits `emitted`, and that either absorbs the
    /// ray (`scatter` is `None`) or scatters it as `Some((attenuation, ray))`,
    /// passing on the new ray's radiance weighted by `attenuation`.
    Hit { emitted: C, scatter: Option<(C, R)> },
}

/// `out` (the caller's final state and a color) is a possible outcome of
/// following `ray` from `state` for at most `depth` levels, where `incoming`
/// lists the colors that came back along the scattered rays, nearest first.
/// At depth zero the color is `black` and nothing is traced. Otherwise the ray
/// is traced once; the color is `black` on a miss, the emitted color when the
/// surface absorbs the ray, and `combine(emitted, attenuation, incoming[0])`
/// when it scatters it, where `incoming[0]` is an outcome of the scattered ray
/// followed for one level less.
pub open spec fn is_path_radiance<G, R, C, T, K>(
    trace: T,
    combine: K,
    black: C,
    state: G,
    ray: R,
    depth: nat,
    out: (G, C),
    incoming: Seq<C>,
) -> bool where T: Fn(G, R) -> (G, Bounce<C, R>), K: Fn(C, C, C) -> C
    decreases depth,
{
    if depth == 0 {
        out == (state, black)
    } else {
        exists|next: G, bounce: Bounce<C, R>|
            #[trigger] call_ensures(trace, (state, ray), (next, bounce)) && match bounce {
                Bounce::Miss => out == (next, black),
                Bounce::Hit { emitted, scatter: None } => out == (next, emitted),
                Bounce::Hit { emitted, scatter: Some((attenuation, scattered)) } => {
                    &&& incoming.len() > 0
                    &&& is_path_radiance(
                        trace,
                        combine,
                        black,
                        next,
                        scattered,
                        (depth - 1) as nat,
                        (out.0, incoming[0]),
                        incoming.drop_first(),
                    )
                    &&& call_ensures(combine, (emitted, attenuation, incoming[0]), out.1)
                },
            }
    }
}

/// Radiance carried back along `ray`, followed for at most `depth` levels.
/// Returns the caller's state after the last trace, and the color.
pub fn ray_color<G, R, C: Copy, T, K>(
    trace: &T,
    combine: &K,
    black: C,
    state: G,
    ray: R,
    depth: usize,
) -> (r: (G, C)) where T: Fn(G, R) -> (G, Bounce<C, R>), K: Fn(C, C, C) -> C
    requires
        forall|s: G, q: R| call_requires(*trace, (s, q)),
        forall|e: C, a: C, i: C| call_requires(*combine, (e, a, i)),
    ensures
        exists|incoming: Seq<C>|
            #[trigger] is_path_radiance(
                *trace,
                *combine,
                black,
                state,
                ray,
                depth as nat,
                r,
                incoming,
            ),
        depth == 0 ==> r == (state, black),
    decreases depth,
{
    if depth == 0 {
        assert(is_path_radiance(*trace, *combine, black, state, ray, 0, (state, black), seq![]));
        return (state, black);
    }
    let ghost start = state;
    let ghost traced = ray;
    let (next, bounce) = trace(state, ray);
    match bounce {
        Bounce::Miss => {
            assert(is_path_radiance(
                *trace,
                *combine,
                black,
                start,
                traced,
                depth as nat,
                (next, black),
                seq![],
            ));
            (next, black)
        },
        Bounce::Hit { emitted, scatter: None } => {
            assert(is_path_radiance(
                *trace,
                *combine,
                black,
                start,
                traced,
                depth as nat,
                (next, emitted),
                seq![],
            ));
            (next, emitted)
        },
        Bounce::Hit { emitted, scatter: Some((attenuation, scattered)) } => {
            let (last, incoming) = ray_color(trace, combine, black, next, scattered, depth - 1);
            let color = combine(emitted, attenuation, incoming);
            let ghost rest = choose|w: Seq<C>|
                #[trigger] is_path_radiance(
                    *trace,
                    *combine,
                    black,
                    next,
                    scattered,
                    (depth - 1) as nat,
                    (last, incoming),
                    w,
                );
            let ghost w = seq![incoming] + rest;
            assert(w.drop_first() =~= rest);
            assert(is_path_radiance(
                *trace,
                *combine,
                black,
                start,
                traced,
                depth as nat,
                (last, color),
                w,
            ));
            (last, color)
        },
    }
}

/// A ray that hits nothing brings back black: when every possible bounce of
/// `ray` is a miss, every outcome of following it for one level or more has
/// the color `black`.
pub proof fn lemma_miss_is_black<G, R, C, T, K>(
    trace: T,
    combine: K,
    black: C,
    state: G,
    ray: R,
    depth: nat,
    out: (G, C),
    incoming: Seq<C>,
) where T: Fn(G, R) -> (G, Bounce<C, R>), K: Fn(C, C, C) -> C
    requires
        depth > 0,
        forall|next: G, bounce: Bounce<C, R>|
            #[trigger] call_ensures(trace, (state, ray), (next, bounce)) ==> bounce is Miss,
        is_path_radiance(trace, combine, black, state, ray, depth, out, incoming),
    ensures
        out.1 == black,
{
}

/// Tracing stops when the depth is spent: every outcome of following a ray
/// for zero levels is the unchanged state and the color `black`.
pub proof fn lemma_depth_zero_is_black<G, R, C, T, K>(
    trace: T,
    combine: K,
    black: C,
    state: G,
    ray: R,
    out: (G, C),
    incoming: Seq<C>,
) where T: Fn(G, R) -> (G, Bounce<C, R>), K: Fn(C, C, C) -> C
    requires
        is_path_radiance(trace, combine, black, state, ray, 0, out, incoming),
    ensures
        out == (state, black),
{
}

} // verus!
