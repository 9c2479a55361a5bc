//! Placeholder resource figures for the dashboard.
//!
//! The figures are made up: each is drawn at random from a short fixed list.
//! They are for display only, and identity resolution never reads them.

use vstd::prelude::*;
use rand::seq::SliceRandom;

verus! {

/// The CPU figures to draw from.
pub open spec fn cpu_figures() -> Seq<i32> {
    seq![0i32, 20i32, 14i32, 33i32, 27i32, 24i32, 4i32, 8i32]
}

/// The memory figures to draw from, in megabytes.
pub open spec fn memory_figures() -> Seq<i32> {
    seq![150i32, 200i32, 140i32, 175i32, 190i32, 80i32, 125i32, 75i32]
}

/// Draws one element of `figures` with `rand::seq::SliceRandom::choose`, on
/// the generator that `rand::thread_rng` hands out. Trusted: an empty slice
/// gives `None`, and any other gives one of its elements; which one is left
/// open.
#[verifier::external_body]
fn choose_figure(figures: &[i32]) -> (r: Option<i32>)
    ensures
        match r {
            Some(figure) => figures@.contains(figure),
            None => figures@.len() == 0,
        },
{
    figures.choose(&mut rand::thread_rng()).copied()
}

/// A placeholder CPU figure.
pub fn placeholder_cpu() -> (r: i32)
    ensures
        cpu_figures().contains(r),
{
    let figures: Vec<i32> = vec![0i32, 20i32, 14i32, 33i32, 27i32, 24i32, 4i32, 8i32];
    assert(figures@ =~= cpu_figures());
    let drawn = choose_figure(figures.as_slice());
    drawn.unwrap()
}

/// A placeholder memory figure, in megabytes.
pub fn placeholder_memory() -> (r: i32)
    ensures
        memory_figures().contains(r),
{
    let figures: Vec<i32> = vec![150i32, 200i32, 140i32, 175i32, 190i32, 80i32, 125i32, 75i32];
    assert(figures@ =~= memory_figures());
    let drawn = choose_figure(figures.as_slice());
    drawn.unwrap()
}

} // verus!
