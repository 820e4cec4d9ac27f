//! Escape-depth resolution for the bounded Julia iteration.
//!
//! The iteration keeps a counter that starts at `max_iterations` and loses one
//! per recurrence step; it always takes the first step, then stops as soon as
//! the orbit's squared modulus has reached `4.0` or only one count remains.
//! The depth reported for a pixel is the counter's final value: a
//! remaining-steps count, large for orbits that leave the disk quickly and `1`
//! for orbits that never leave within the budget.
//!
//! The stepping itself is floating-point work done by the caller; what the
//! caller observes is summed up in one plain value per pixel, the
//! [`EscapeEvent`]: at which step, if any, the squared modulus was first seen
//! at or above `4.0`. Resolving that observation into the depth — the
//! countdown bookkeeping, with its exact off-by-one behavior — is done and
//! verified here.

use vstd::prelude::*;

verus! {

/// What the caller observed of one pixel's orbit: `Some(n)` if the squared
/// modulus first reached `4.0` on step `n` (the budget allows steps `1` to
/// `max_iterations - 1`), `None` if it stayed below through the whole budget.
pub type EscapeEvent = Option<u32>;

/// A well-formed observation: an escape can only be seen on a step the budget
/// admits, that is on steps `1` to `max_iterations - 1`.
pub open spec fn event_wf(max_iterations: u32, event: EscapeEvent) -> bool {
    match event {
        Some(n) => 1 <= n < max_iterations,
        None => true,
    }
}

/// The depth the countdown reaches: the counter starts at `max_iterations`,
/// one count is spent per step taken, and the orbit stops after its escape
/// step or, never escaping, after `max_iterations - 1` steps.
pub open spec fn spec_escape_depth(max_iterations: u32, event: EscapeEvent) -> int {
    match event {
        Some(n) => max_iterations - n,
        None => 1,
    }
}

/// Resolves an escape observation into the pixel's escape depth.
///
/// An orbit that escapes on its first step — one already outside the disk
/// starts by stepping once before the bound is checked — gets depth
/// `max_iterations - 1`; one that never escapes gets depth `1`. The depth is
/// never `0` and never `max_iterations`.
pub fn escape_depth(max_iterations: u32, event: EscapeEvent) -> (depth: u32)
    requires
        max_iterations >= 2,
        event_wf(max_iterations, event),
    ensures
        depth == spec_escape_depth(max_iterations, event),
        1 <= depth <= max_iterations - 1,
{
    match event {
        Some(n) => max_iterations - n,
        None => 1,
    }
}

/// Bounds law: every well-formed observation resolves to a depth between `1`
/// and `max_iterations`.
pub proof fn lemma_escape_depth_bounds(max_iterations: u32, event: EscapeEvent)
    requires
        max_iterations >= 2,
        event_wf(max_iterations, event),
    ensures
        1 <= spec_escape_depth(max_iterations, event) <= max_iterations,
{
}

/// The stepwise countdown itself, as a model of the evaluator's loop.
///
/// `escapes[j]` records whether the squared modulus was at or above `4.0`
/// right after step `j + 1`. With `i` counts left the loop exits if only one
/// remains; otherwise it spends one count on the next step, exits if that step
/// escaped, and goes on. The result is the counter's final value.
pub open spec fn spec_countdown(i: int, step: int, escapes: Seq<bool>) -> int
    decreases i,
{
    if i <= 1 {
        i
    } else if escapes[step] {
        i - 1
    } else {
        spec_countdown(i - 1, step + 1, escapes)
    }
}

/// A window of steps with no escape runs the counter all the way down to `1`.
proof fn lemma_countdown_exhausts(i: int, step: int, escapes: Seq<bool>)
    requires
        1 <= i,
        0 <= step,
        step + i - 1 <= escapes.len(),
        forall|j: int| step <= j < step + i - 1 ==> !escapes[j],
    ensures
        spec_countdown(i, step, escapes) == 1,
    decreases i,
{
    if i > 1 {
        lemma_countdown_exhausts(i - 1, step + 1, escapes);
    }
}

/// A first escape at index `k` stops the counter after `k - step + 1` spent
/// counts.
proof fn lemma_countdown_stops_at_escape(i: int, step: int, k: int, escapes: Seq<bool>)
    requires
        2 <= i,
        0 <= step <= k,
        k <= step + i - 2,
        k < escapes.len(),
        escapes[k],
        forall|j: int| step <= j < k ==> !escapes[j],
    ensures
        spec_countdown(i, step, escapes) == i - 1 - (k - step),
    decreases i,
{
    if k > step {
        lemma_countdown_stops_at_escape(i - 1, step + 1, k, escapes);
    }
}

/// Loop law: the countdown model and the closed form agree. For a full
/// budget's worth of step observations whose first escape is the one the
/// event reports, running the counter down from `max_iterations` lands
/// exactly on `spec_escape_depth` — the depth `escape_depth` computes.
pub proof fn lemma_countdown_matches_depth(
    max_iterations: u32,
    escapes: Seq<bool>,
    event: EscapeEvent,
)
    requires
        max_iterations >= 2,
        escapes.len() == max_iterations - 1,
        match event {
            Some(n) => 1 <= n < max_iterations && escapes[n - 1] && (forall|j: int|
                0 <= j < n - 1 ==> !escapes[j]),
            None => forall|j: int| 0 <= j < escapes.len() ==> !escapes[j],
        },
    ensures
        spec_countdown(max_iterations as int, 0, escapes) == spec_escape_depth(
            max_iterations,
            event,
        ),
{
    match event {
        Some(n) => {
            lemma_countdown_stops_at_escape(max_iterations as int, 0, n - 1, escapes);
        },
        None => {
            lemma_countdown_exhausts(max_iterations as int, 0, escapes);
        },
    }
}

} // verus!
