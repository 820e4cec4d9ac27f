//! The raster filler: drives the per-pixel pipeline over every pixel of the
//! image and assembles the output raster.
//!
//! A raster is a vector of `width * height` colors in row-major order; the
//! slot of pixel `(x, y)` is index `y * width + x`. The fill is a pure map
//! over the per-pixel escape observations — no pixel's result depends on any
//! other — so it may run sequentially or fanned out over a thread pool, with
//! the same contract either way.

use crate::config::RenderConfig;
use crate::escape::escape_depth;
use crate::escape::event_wf;
use crate::escape::spec_escape_depth;
use crate::escape::EscapeEvent;
use crate::gradient::pixel_color;
use crate::gradient::spec_pixel_color;
use crate::gradient::GradientKind;
use crate::gradient::PixelColor;
use rayon::iter::IndexedParallelIterator;
use rayon::iter::IntoParallelRefIterator;
use rayon::iter::ParallelIterator;
use vstd::arithmetic::div_mod::lemma_fundamental_div_mod_converse;
use vstd::prelude::*;

verus! {

/// The raster slot of pixel `(x, y)` in row-major order.
pub open spec fn pixel_index(width: u32, x: u32, y: u32) -> int {
    y * width + x
}

/// Well-formed observations for a whole raster: every entry respects the
/// iteration budget.
pub open spec fn events_wf(max_iterations: u32, events: Seq<EscapeEvent>) -> bool {
    forall|k: int| 0 <= k < events.len() ==> event_wf(max_iterations, #[trigger] events[k])
}

/// The full per-pixel pipeline on one observation: resolve the escape depth,
/// then map it through the gradient.
pub open spec fn spec_render_pixel(max_iterations: u32, kind: GradientKind, event: EscapeEvent) -> PixelColor {
    spec_pixel_color(kind, spec_escape_depth(max_iterations, event) as u32)
}

/// The raster a render produces: the per-pixel pipeline applied slot by slot.
pub open spec fn spec_render(cfg: RenderConfig, events: Seq<EscapeEvent>) -> Seq<PixelColor> {
    Seq::new(events.len(), |k: int| spec_render_pixel(cfg.max_iterations, cfg.gradient, events[k]))
}

/// The per-pixel pipeline: escape depth, then color.
pub fn render_pixel(max_iterations: u32, kind: GradientKind, event: EscapeEvent) -> (c: PixelColor)
    requires
        max_iterations >= 2,
        event_wf(max_iterations, event),
    ensures
        c == spec_render_pixel(max_iterations, kind, event),
{
    pixel_color(kind, escape_depth(max_iterations, event))
}

/// Fills the raster sequentially: one color per observation, in slot order.
pub fn render(cfg: &RenderConfig, events: &Vec<EscapeEvent>) -> (img: Vec<PixelColor>)
    requires
        cfg.wf(),
        events@.len() == cfg.pixel_count(),
        events_wf(cfg.max_iterations, events@),
    ensures
        img@ == spec_render(*cfg, events@),
        img@.len() == cfg.pixel_count(),
{
    let n: usize = events.len();
    let mut img: Vec<PixelColor> = Vec::new();
    let mut k: usize = 0;
    while k < n
        invariant
            n == events@.len(),
            cfg.max_iterations >= 2,
            events_wf(cfg.max_iterations, events@),
            k <= n,
            img@.len() == k,
            forall|j: int| 0 <= j < k ==> img@[j] == spec_render(*cfg, events@)[j],
        decreases n - k,
    {
        img.push(render_pixel(cfg.max_iterations, cfg.gradient, events[k]));
        k = k + 1;
    }
    assert(img@ =~= spec_render(*cfg, events@));
    img
}

/// Resolves the escape depth of every observation, in slot order; the colored
/// raster and this depth raster describe the same render, one before and one
/// after the gradient.
pub fn render_depths(cfg: &RenderConfig, events: &Vec<EscapeEvent>) -> (depths: Vec<u32>)
    requires
        cfg.wf(),
        events@.len() == cfg.pixel_count(),
        events_wf(cfg.max_iterations, events@),
    ensures
        depths@.len() == cfg.pixel_count(),
        forall|k: int|
            0 <= k < depths@.len() ==> #[trigger] depths@[k] == spec_escape_depth(
                cfg.max_iterations,
                events@[k],
            ),
{
    let n: usize = events.len();
    let mut depths: Vec<u32> = Vec::new();
    let mut k: usize = 0;
    while k < n
        invariant
            n == events@.len(),
            cfg.max_iterations >= 2,
            events_wf(cfg.max_iterations, events@),
            k <= n,
            depths@.len() == k,
            forall|j: int|
                0 <= j < k ==> #[trigger] depths@[j] == spec_escape_depth(
                    cfg.max_iterations,
                    events@[j],
                ),
        decreases n - k,
    {
        depths.push(escape_depth(cfg.max_iterations, events[k]));
        k = k + 1;
    }
    depths
}

/// Relies on rayon: `par_iter` on a slice is an indexed parallel iterator,
/// `map` keeps it indexed, and `collect_into_vec` places each mapped item at
/// the index of its source, so the output holds, in order, the verified
/// per-pixel pipeline's result for every observation.
#[verifier::external_body]
fn par_map_pixels(max_iterations: u32, kind: GradientKind, events: &Vec<EscapeEvent>) -> (img: Vec<
    PixelColor,
>)
    requires
        max_iterations >= 2,
        events_wf(max_iterations, events@),
    ensures
        img@.len() == events@.len(),
        forall|k: int|
            0 <= k < events@.len() ==> img@[k] == spec_render_pixel(
                max_iterations,
                kind,
                events@[k],
            ),
{
    let mut img: Vec<PixelColor> = Vec::new();
    events.par_iter().map(|event| render_pixel(max_iterations, kind, *event)).collect_into_vec(
        &mut img,
    );
    img
}

/// Fills the raster with the work fanned out over rayon's thread pool; the
/// result is the same raster the sequential fill produces.
pub fn render_par(cfg: &RenderConfig, events: &Vec<EscapeEvent>) -> (img: Vec<PixelColor>)
    requires
        cfg.wf(),
        events@.len() == cfg.pixel_count(),
        events_wf(cfg.max_iterations, events@),
    ensures
        img@ == spec_render(*cfg, events@),
        img@.len() == cfg.pixel_count(),
{
    let img = par_map_pixels(cfg.max_iterations, cfg.gradient, events);
    assert(img@ =~= spec_render(*cfg, events@));
    img
}

/// The slot of a pixel lies inside the raster.
pub proof fn lemma_pixel_index_in_range(cfg: RenderConfig, x: u32, y: u32)
    requires
        x < cfg.width,
        y < cfg.height,
    ensures
        0 <= pixel_index(cfg.width, x, y) < cfg.pixel_count(),
{
    assert(y * cfg.width + x < cfg.width * cfg.height) by (nonlinear_arith)
        requires
            x < cfg.width,
            y < cfg.height,
    ;
}

/// Write-once law: distinct pixels have distinct slots, so a fill that writes
/// each slot once writes each pixel exactly once.
pub proof fn lemma_pixel_index_injective(width: u32, x1: u32, y1: u32, x2: u32, y2: u32)
    requires
        x1 < width,
        x2 < width,
        pixel_index(width, x1, y1) == pixel_index(width, x2, y2),
    ensures
        x1 == x2,
        y1 == y2,
{
    let i = pixel_index(width, x1, y1);
    lemma_fundamental_div_mod_converse(i, width as int, y1 as int, x1 as int);
    lemma_fundamental_div_mod_converse(i, width as int, y2 as int, x2 as int);
}

/// Coverage law: a render produces exactly `width * height` colors, and the
/// slot of every pixel `(x, y)` holds the per-pixel pipeline's result for that
/// pixel's own observation — no slot is missed, and with the write-once law no
/// slot is shared.
pub proof fn lemma_render_coverage(cfg: RenderConfig, events: Seq<EscapeEvent>)
    requires
        cfg.wf(),
        events.len() == cfg.pixel_count(),
    ensures
        spec_render(cfg, events).len() == cfg.width * cfg.height,
        forall|x: u32, y: u32|
            x < cfg.width && y < cfg.height ==> spec_render(cfg, events)[#[trigger] pixel_index(
                cfg.width,
                x,
                y,
            )] == spec_render_pixel(
                cfg.max_iterations,
                cfg.gradient,
                events[pixel_index(cfg.width, x, y)],
            ),
{
    assert forall|x: u32, y: u32| x < cfg.width && y < cfg.height implies spec_render(
        cfg,
        events,
    )[#[trigger] pixel_index(cfg.width, x, y)] == spec_render_pixel(
        cfg.max_iterations,
        cfg.gradient,
        events[pixel_index(cfg.width, x, y)],
    ) by {
        lemma_pixel_index_in_range(cfg, x, y);
    }
}

} // verus!
