//! The layout/draw engine: a pure function from sequencer state and canvas
//! geometry to the ordered list of draw primitives for one rendered frame.
//!
//! The order mirrors the draw pass: header, background and ruler-top
//! rectangles; decimated header ticks with frame-number labels; per-item
//! legend labels; alternating slot rows; and the vertical grid lines that
//! run down the content area. Every horizontal position comes from
//! [`crate::geometry::pixel_x`], and every tick is subject to the
//! visibility clip, so the primitive count is bounded by the canvas, not
//! by the frame range.

use vstd::arithmetic::div_mod::lemma_div_is_ordered;
use vstd::arithmetic::div_mod::lemma_fundamental_div_mod;
use vstd::arithmetic::div_mod::lemma_mod_bound;
use vstd::arithmetic::mul::lemma_mul_inequality;
use vstd::arithmetic::mul::lemma_mul_is_distributive_add_other_way;
use vstd::prelude::*;

use crate::decimation::decimate;
use crate::decimation::decimated_half_mod;
use crate::decimation::decimated_mod;
use crate::decimation::decimated_step;
use crate::decimation::lemma_decimation_properties;
use crate::geometry::lemma_pixel_x_in_range;
use crate::geometry::frame_to_pixel;
use crate::geometry::pixel_x;
use crate::geometry::CanvasRegion;
use crate::geometry::ContentRegion;
use crate::geometry::LayoutConstants;
use crate::options::SequencerOptions;
use crate::style::SequencerStyle;

verus! {

/// One draw command, in pixel coordinates. Lines are one pixel thick;
/// rectangles are filled. Text carries the number to print rather than a
/// rendered string: a frame number for ruler labels, a row index for
/// legend labels.
#[derive(Debug, Clone, Copy, PartialEq, Eq)]
pub enum DrawPrimitive {
    FilledRect { x0: i64, y0: i64, x1: i64, y1: i64, color: u32 },
    Line { x: i64, y0: i64, y1: i64, color: u32 },
    FrameNumber { x: i64, y: i64, color: u32, frame: u32 },
    ItemLabel { x: i64, y: i64, color: u32, index: usize },
}

/// Everything one layout pass reads: the model state (frame bounds, item
/// count, palette) and the frame's canvas geometry.
#[derive(Debug, Clone, Copy, PartialEq, Eq)]
pub struct LayoutInput {
    pub frame_min: u32,
    pub frame_max: u32,
    pub item_count: usize,
    pub style: SequencerStyle,
    pub canvas: CanvasRegion,
    pub content: ContentRegion,
    pub constants: LayoutConstants,
}

/// The caller contract: an ordered frame range, bounded scalars so pixel
/// arithmetic fits an `i64`, and an item count a row coordinate can hold.
pub open spec fn wf_input(inp: LayoutInput) -> bool {
    &&& inp.frame_min <= inp.frame_max
    &&& inp.item_count as int <= 0xffff_ffff
    &&& inp.constants.wf()
    &&& inp.canvas.wf()
    &&& inp.content.wf()
}

/// The decimation period for this input.
pub open spec fn period_of(inp: LayoutInput) -> nat {
    decimated_mod(inp.constants.frame_pixel_width as nat)
}

/// The decimation stride for this input.
pub open spec fn step_of(inp: LayoutInput) -> nat {
    decimated_step(inp.constants.frame_pixel_width as nat)
}

/// The half period for this input.
pub open spec fn half_period_of(inp: LayoutInput) -> nat {
    decimated_half_mod(inp.constants.frame_pixel_width as nat)
}

/// The pixel position of a frame on this canvas.
pub open spec fn frame_px(inp: LayoutInput, frame: int) -> int {
    pixel_x(
        inp.canvas.x as int,
        inp.constants.legend_width as int,
        inp.constants.frame_pixel_width as int,
        frame,
    )
}

/// The left edge of the visible timeline: where the legend column ends.
pub open spec fn clip_lo(inp: LayoutInput) -> int {
    inp.canvas.x + inp.constants.legend_width
}

/// The right edge of the visible timeline: the canvas's right edge.
pub open spec fn clip_hi(inp: LayoutInput) -> int {
    inp.canvas.x + inp.canvas.width
}

/// The visibility clip: a position is drawn only inside the timeline.
pub open spec fn in_clip(inp: LayoutInput, px: int) -> bool {
    clip_lo(inp) <= px <= clip_hi(inp)
}

/// A frame gets a major tick when it sits on the decimation period, or is
/// one of the two range endpoints, which are always forced in.
pub open spec fn is_major_frame(inp: LayoutInput, frame: nat) -> bool {
    ||| frame % period_of(inp) == 0
    ||| frame == inp.frame_max as nat
    ||| frame == inp.frame_min as nat
}

/// A non-major frame on the half period gets a medium tick.
pub open spec fn is_half_frame(inp: LayoutInput, frame: nat) -> bool {
    frame % half_period_of(inp) == 0
}

/// Where a tick starts below the header's top: major ticks reach highest,
/// half-period ticks middle, plain ticks lowest.
pub open spec fn tick_start_offset(inp: LayoutInput, frame: nat) -> int {
    if is_major_frame(inp, frame) {
        4
    } else if is_half_frame(inp, frame) {
        10
    } else {
        14
    }
}

/// The header tick line for a frame.
pub open spec fn header_tick_line(inp: LayoutInput, frame: nat) -> DrawPrimitive {
    DrawPrimitive::Line {
        x: frame_px(inp, frame as int) as i64,
        y0: ((inp.canvas.y as int) + tick_start_offset(inp, frame)) as i64,
        y1: ((inp.canvas.y as int) + (inp.constants.row_height as int)) as i64,
        color: inp.style.head_tick_color,
    }
}

/// The frame-number label drawn beside a major tick.
pub open spec fn frame_number_text(inp: LayoutInput, frame: nat) -> DrawPrimitive {
    DrawPrimitive::FrameNumber {
        x: (frame_px(inp, frame as int) + 3) as i64,
        y: inp.canvas.y,
        color: inp.style.frame_num_color,
        frame: frame as u32,
    }
}

/// What one visited frame contributes to the header: its tick line, and,
/// for a major frame, its number label. Both are subject to the
/// visibility clip on the frame's position.
pub open spec fn header_tick_prims(inp: LayoutInput, frame: nat) -> Seq<DrawPrimitive> {
    let px = frame_px(inp, frame as int);
    (if in_clip(inp, px) {
        seq![header_tick_line(inp, frame)]
    } else {
        Seq::<DrawPrimitive>::empty()
    }) + (if is_major_frame(inp, frame) && in_clip(inp, px) {
        seq![frame_number_text(inp, frame)]
    } else {
        Seq::<DrawPrimitive>::empty()
    })
}

/// First stride index the tick loop visits.
pub open spec fn tick_loop_start(inp: LayoutInput) -> nat {
    (inp.frame_min as nat) / step_of(inp)
}

/// First stride index past the tick loop.
pub open spec fn tick_loop_end(inp: LayoutInput) -> nat {
    (inp.frame_max as nat) / step_of(inp)
}

/// How many stride positions the tick loop visits.
pub open spec fn tick_loop_len(inp: LayoutInput) -> nat {
    if tick_loop_end(inp) >= tick_loop_start(inp) {
        (tick_loop_end(inp) - tick_loop_start(inp)) as nat
    } else {
        0
    }
}

/// The frame visited by the tick loop's `n`-th iteration.
pub open spec fn tick_frame_at(inp: LayoutInput, n: int) -> nat {
    (((tick_loop_start(inp) as int) + n) * (step_of(inp) as int)) as nat
}

/// The header contributions of the first `n` tick-loop iterations.
pub open spec fn header_ticks_upto(inp: LayoutInput, n: nat) -> Seq<DrawPrimitive>
    decreases n,
{
    if n == 0 {
        Seq::<DrawPrimitive>::empty()
    } else {
        header_ticks_upto(inp, (n - 1) as nat) + header_tick_prims(
            inp,
            tick_frame_at(inp, n - 1),
        )
    }
}

/// Whether the strided loop already visits `frame_min`: its first
/// iteration lands exactly on a stride-aligned `frame_min`.
pub open spec fn loop_covers_min(inp: LayoutInput) -> bool {
    &&& (inp.frame_min as nat) % step_of(inp) == 0
    &&& tick_loop_start(inp) < tick_loop_end(inp)
}

/// Every header tick: the strided loop, then the forced endpoints. Each
/// endpoint is forced in exactly once: `frame_min` is skipped when the
/// loop already visited it, and `frame_max` is skipped when it coincides
/// with `frame_min`.
pub open spec fn header_ticks_seq(inp: LayoutInput) -> Seq<DrawPrimitive> {
    header_ticks_upto(inp, tick_loop_len(inp)) + (if loop_covers_min(inp) {
        Seq::<DrawPrimitive>::empty()
    } else {
        header_tick_prims(inp, inp.frame_min as nat)
    }) + (if inp.frame_max == inp.frame_min {
        Seq::<DrawPrimitive>::empty()
    } else {
        header_tick_prims(inp, inp.frame_max as nat)
    })
}

/// The legend label for item row `i`.
pub open spec fn item_label_prim(inp: LayoutInput, i: int) -> DrawPrimitive {
    DrawPrimitive::ItemLabel {
        x: ((inp.content.min_x as int) + 3) as i64,
        y: ((inp.content.min_y as int) + i * (inp.constants.row_height as int) + 2) as i64,
        color: 0xffff_ffffu32,
        index: i as usize,
    }
}

/// One legend label per item row, in row order.
pub open spec fn labels_seq(inp: LayoutInput) -> Seq<DrawPrimitive> {
    Seq::new(inp.item_count as nat, |i: int| item_label_prim(inp, i))
}

/// Slot rows alternate between the two slot colors.
pub open spec fn slot_row_color(inp: LayoutInput, i: int) -> u32 {
    if i % 2 == 0 {
        inp.style.slot_color[0]
    } else {
        inp.style.slot_color[1]
    }
}

/// The background rectangle of item row `i`, spanning from the end of the
/// legend column to the canvas's right edge.
pub open spec fn slot_rect_prim(inp: LayoutInput, i: int) -> DrawPrimitive {
    DrawPrimitive::FilledRect {
        x0: ((inp.content.min_x as int) + (inp.constants.legend_width as int)) as i64,
        y0: ((inp.content.min_y as int) + i * (inp.constants.row_height as int) + 1) as i64,
        x1: ((inp.canvas.width as int) + (inp.canvas.x as int)) as i64,
        y1: ((inp.content.min_y as int) + i * (inp.constants.row_height as int)
            + (inp.constants.row_height as int)) as i64,
        color: slot_row_color(inp, i),
    }
}

/// One slot rectangle per item row, in row order.
pub open spec fn slots_seq(inp: LayoutInput) -> Seq<DrawPrimitive> {
    Seq::new(inp.item_count as nat, |i: int| slot_rect_prim(inp, i))
}

/// The vertical grid line a frame draws across the whole content area.
pub open spec fn content_line_prim(inp: LayoutInput, frame: nat) -> DrawPrimitive {
    DrawPrimitive::Line {
        x: frame_px(inp, frame as int) as i64,
        y0: inp.content.min_y,
        y1: inp.content.max_y,
        color: inp.style.body_tick_color,
    }
}

/// What one visited frame contributes to the content grid: its line, when
/// inside the clip.
pub open spec fn content_line_prims(inp: LayoutInput, frame: nat) -> Seq<DrawPrimitive> {
    if in_clip(inp, frame_px(inp, frame as int)) {
        seq![content_line_prim(inp, frame)]
    } else {
        Seq::<DrawPrimitive>::empty()
    }
}

/// The grid contributions of the first `n` tick-loop iterations.
pub open spec fn content_lines_upto(inp: LayoutInput, n: nat) -> Seq<DrawPrimitive>
    decreases n,
{
    if n == 0 {
        Seq::<DrawPrimitive>::empty()
    } else {
        content_lines_upto(inp, (n - 1) as nat) + content_line_prims(
            inp,
            tick_frame_at(inp, n - 1),
        )
    }
}

/// Every content grid line: the strided loop, then the forced endpoints,
/// each at most once, with the same guards as the header ticks.
pub open spec fn content_lines_seq(inp: LayoutInput) -> Seq<DrawPrimitive> {
    content_lines_upto(inp, tick_loop_len(inp)) + (if loop_covers_min(inp) {
        Seq::<DrawPrimitive>::empty()
    } else {
        content_line_prims(inp, inp.frame_min as nat)
    }) + (if inp.frame_max == inp.frame_min {
        Seq::<DrawPrimitive>::empty()
    } else {
        content_line_prims(inp, inp.frame_max as nat)
    })
}

/// The header-row background rectangle.
pub open spec fn header_rect_prim(inp: LayoutInput) -> DrawPrimitive {
    DrawPrimitive::FilledRect {
        x0: inp.canvas.x,
        y0: inp.canvas.y,
        x1: ((inp.canvas.x as int) + (inp.canvas.width as int)) as i64,
        y1: ((inp.canvas.y as int) + (inp.constants.row_height as int)) as i64,
        color: inp.style.header_color,
    }
}

/// The full-canvas background rectangle.
pub open spec fn background_rect_prim(inp: LayoutInput) -> DrawPrimitive {
    DrawPrimitive::FilledRect {
        x0: inp.canvas.x,
        y0: inp.canvas.y,
        x1: ((inp.canvas.x as int) + (inp.canvas.width as int)) as i64,
        y1: ((inp.canvas.y as int) + (inp.canvas.height as int)) as i64,
        color: inp.style.bg_color,
    }
}

/// The ruler-top rectangle, from the end of the legend column to the
/// canvas's right edge.
pub open spec fn ruler_top_rect_prim(inp: LayoutInput) -> DrawPrimitive {
    DrawPrimitive::FilledRect {
        x0: ((inp.canvas.x as int) + (inp.constants.legend_width as int)) as i64,
        y0: inp.canvas.y,
        x1: ((inp.canvas.x as int) + (inp.canvas.width as int)) as i64,
        y1: ((inp.canvas.y as int) + (inp.constants.row_height as int)) as i64,
        color: inp.style.top_color,
    }
}

/// The three rectangles every pass opens with.
pub open spec fn base_rects_seq(inp: LayoutInput) -> Seq<DrawPrimitive> {
    seq![header_rect_prim(inp), background_rect_prim(inp), ruler_top_rect_prim(inp)]
}

/// The whole pass, in draw order. The engine's output equals this
/// sequence exactly, so the output is a function of the input alone.
pub open spec fn layout_spec(inp: LayoutInput) -> Seq<DrawPrimitive> {
    base_rects_seq(inp) + header_ticks_seq(inp) + labels_seq(inp) + slots_seq(inp)
        + content_lines_seq(inp)
}

/// A loop index strictly below `fmax / step` multiplies back to a frame
/// at least one stride short of `fmax`.
proof fn lemma_step_mul_bound(i: int, fmax: int, step: int)
    requires
        step >= 1,
        0 <= i,
        i < fmax / step,
        0 <= fmax,
    ensures
        0 <= i * step,
        i * step + step <= fmax,
{
    lemma_fundamental_div_mod(fmax, step);
    lemma_mod_bound(fmax, step);
    lemma_mul_inequality(i + 1, fmax / step, step);
    lemma_mul_is_distributive_add_other_way(step, i, 1);
    assert(step * (fmax / step) == (fmax / step) * step) by (nonlinear_arith);
    assert(0 <= i * step) by (nonlinear_arith)
        requires
            0 <= i,
            step >= 1,
    ;
}

/// Append the header contribution of one visited frame: its tick line
/// when it falls inside the clip, then its number label when it is major
/// and has cleared the legend column.
fn push_header_tick(
    out: &mut Vec<DrawPrimitive>,
    inp: &LayoutInput,
    frame: u32,
    period: u32,
    half_period: u32,
)
    requires
        wf_input(*inp),
        period as nat == period_of(*inp),
        half_period as nat == half_period_of(*inp),
        1 <= period,
        1 <= half_period,
    ensures
        final(out)@ == old(out)@ + header_tick_prims(*inp, frame as nat),
{
    proof {
        lemma_pixel_x_in_range(
            inp.canvas.x as int,
            inp.constants.legend_width as int,
            inp.constants.frame_pixel_width as int,
            frame as int,
        );
    }
    let px = frame_to_pixel(
        inp.canvas.x,
        inp.constants.legend_width,
        inp.constants.frame_pixel_width,
        frame,
    );
    let major = frame % period == 0 || frame == inp.frame_max || frame == inp.frame_min;
    let half = frame % half_period == 0;
    let tick_start: i64 = if major {
        4
    } else if half {
        10
    } else {
        14
    };
    if px <= inp.canvas.x + inp.canvas.width && px >= inp.canvas.x + inp.constants.legend_width
        as i64 {
        out.push(
            DrawPrimitive::Line {
                x: px,
                y0: inp.canvas.y + tick_start,
                y1: inp.canvas.y + inp.constants.row_height as i64,
                color: inp.style.head_tick_color,
            },
        );
    }
    if major && px <= inp.canvas.x + inp.canvas.width && px >= inp.canvas.x
        + inp.constants.legend_width as i64 {
        out.push(
            DrawPrimitive::FrameNumber {
                x: px + 3,
                y: inp.canvas.y,
                color: inp.style.frame_num_color,
                frame,
            },
        );
    }
    proof {
        assert(out@ =~= old(out)@ + header_tick_prims(*inp, frame as nat));
    }
}

/// Append the content-grid contribution of one visited frame: its
/// vertical line, when it falls inside the clip.
fn push_content_line(out: &mut Vec<DrawPrimitive>, inp: &LayoutInput, frame: u32)
    requires
        wf_input(*inp),
    ensures
        final(out)@ == old(out)@ + content_line_prims(*inp, frame as nat),
{
    proof {
        lemma_pixel_x_in_range(
            inp.canvas.x as int,
            inp.constants.legend_width as int,
            inp.constants.frame_pixel_width as int,
            frame as int,
        );
    }
    let px = frame_to_pixel(
        inp.canvas.x,
        inp.constants.legend_width,
        inp.constants.frame_pixel_width,
        frame,
    );
    if px <= inp.canvas.x + inp.canvas.width && px >= inp.canvas.x + inp.constants.legend_width
        as i64 {
        out.push(
            DrawPrimitive::Line {
                x: px,
                y0: inp.content.min_y,
                y1: inp.content.max_y,
                color: inp.style.body_tick_color,
            },
        );
    }
    proof {
        assert(out@ =~= old(out)@ + content_line_prims(*inp, frame as nat));
    }
}

/// Run one full layout pass and return the draw list, which equals
/// [`layout_spec`] on the input exactly.
///
/// The flags are accepted as the entry point's capability set but are
/// currently an inert pass-through: the contract states that the output
/// does not depend on them.
#[verifier::loop_isolation(false)]
pub fn compute_layout(inp: &LayoutInput, _flags: SequencerOptions) -> (out: Vec<DrawPrimitive>)
    requires
        wf_input(*inp),
    ensures
        out@ == layout_spec(*inp),
{
    let mut out: Vec<DrawPrimitive> = Vec::new();
    out.push(
        DrawPrimitive::FilledRect {
            x0: inp.canvas.x,
            y0: inp.canvas.y,
            x1: inp.canvas.x + inp.canvas.width,
            y1: inp.canvas.y + inp.constants.row_height as i64,
            color: inp.style.header_color,
        },
    );
    out.push(
        DrawPrimitive::FilledRect {
            x0: inp.canvas.x,
            y0: inp.canvas.y,
            x1: inp.canvas.x + inp.canvas.width,
            y1: inp.canvas.y + inp.canvas.height,
            color: inp.style.bg_color,
        },
    );
    out.push(
        DrawPrimitive::FilledRect {
            x0: inp.canvas.x + inp.constants.legend_width as i64,
            y0: inp.canvas.y,
            x1: inp.canvas.x + inp.canvas.width,
            y1: inp.canvas.y + inp.constants.row_height as i64,
            color: inp.style.top_color,
        },
    );
    proof {
        assert(out@ =~= base_rects_seq(*inp));
    }

    let d = decimate(inp.constants.frame_pixel_width);
    proof {
        lemma_decimation_properties(inp.constants.frame_pixel_width as nat);
        lemma_div_is_ordered(inp.frame_min as int, inp.frame_max as int, d.frame_step as int);
    }
    let start = inp.frame_min / d.frame_step;
    let end = inp.frame_max / d.frame_step;

    let mut i = start;
    while i < end
        invariant
            start <= i <= end,
            out@ == base_rects_seq(*inp) + header_ticks_upto(*inp, (i - start) as nat),
        decreases end - i,
    {
        proof {
            lemma_step_mul_bound(i as int, inp.frame_max as int, d.frame_step as int);
        }
        let frame = i * d.frame_step;
        push_header_tick(&mut out, inp, frame, d.mod_frame_count, d.half_mod_frame_count);
        i = i + 1;
        proof {
            assert(frame as nat == tick_frame_at(*inp, i - start - 1));
            assert(out@ =~= base_rects_seq(*inp) + header_ticks_upto(*inp, (i - start) as nat));
        }
    }
    let visited_min = inp.frame_min % d.frame_step == 0 && start < end;
    if !visited_min {
        push_header_tick(&mut out, inp, inp.frame_min, d.mod_frame_count, d.half_mod_frame_count);
    }
    if inp.frame_max != inp.frame_min {
        push_header_tick(&mut out, inp, inp.frame_max, d.mod_frame_count, d.half_mod_frame_count);
    }
    proof {
        assert(tick_loop_len(*inp) == (end - start) as nat);
        assert(out@ =~= base_rects_seq(*inp) + header_ticks_seq(*inp));
    }

    let mut row: usize = 0;
    while row < inp.item_count
        invariant
            row <= inp.item_count,
            out@ == base_rects_seq(*inp) + header_ticks_seq(*inp) + Seq::new(
                row as nat,
                |k: int| item_label_prim(*inp, k),
            ),
        decreases inp.item_count - row,
    {
        proof {
            assert(0 <= (row as int) * (inp.constants.row_height as int)
                < 0x4000_0000_0000_0000) by (nonlinear_arith)
                requires
                    0 <= (row as int) < 0x1_0000_0000,
                    0 <= (inp.constants.row_height as int) <= 0x4000_0000,
            ;
        }
        out.push(
            DrawPrimitive::ItemLabel {
                x: inp.content.min_x + 3,
                y: inp.content.min_y + (row as i64) * (inp.constants.row_height as i64) + 2,
                color: 0xffff_ffff,
                index: row,
            },
        );
        row = row + 1;
        proof {
            assert(out@ =~= base_rects_seq(*inp) + header_ticks_seq(*inp) + Seq::new(
                row as nat,
                |k: int| item_label_prim(*inp, k),
            ));
        }
    }
    proof {
        assert(out@ =~= base_rects_seq(*inp) + header_ticks_seq(*inp) + labels_seq(*inp));
    }

    let mut row: usize = 0;
    while row < inp.item_count
        invariant
            row <= inp.item_count,
            out@ == base_rects_seq(*inp) + header_ticks_seq(*inp) + labels_seq(*inp) + Seq::new(
                row as nat,
                |k: int| slot_rect_prim(*inp, k),
            ),
        decreases inp.item_count - row,
    {
        proof {
            assert(0 <= (row as int) * (inp.constants.row_height as int)
                < 0x4000_0000_0000_0000) by (nonlinear_arith)
                requires
                    0 <= (row as int) < 0x1_0000_0000,
                    0 <= (inp.constants.row_height as int) <= 0x4000_0000,
            ;
        }
        let color = if row % 2 == 0 {
            inp.style.slot_color[0]
        } else {
            inp.style.slot_color[1]
        };
        let row_top = inp.content.min_y + (row as i64) * (inp.constants.row_height as i64) + 1;
        out.push(
            DrawPrimitive::FilledRect {
                x0: inp.content.min_x + inp.constants.legend_width as i64,
                y0: row_top,
                x1: inp.canvas.width + inp.canvas.x,
                y1: row_top + inp.constants.row_height as i64 - 1,
                color,
            },
        );
        row = row + 1;
        proof {
            assert(out@ =~= base_rects_seq(*inp) + header_ticks_seq(*inp) + labels_seq(*inp)
                + Seq::new(row as nat, |k: int| slot_rect_prim(*inp, k)));
        }
    }
    proof {
        assert(out@ =~= base_rects_seq(*inp) + header_ticks_seq(*inp) + labels_seq(*inp)
            + slots_seq(*inp));
    }

    let mut i = start;
    while i < end
        invariant
            start <= i <= end,
            out@ == base_rects_seq(*inp) + header_ticks_seq(*inp) + labels_seq(*inp)
                + slots_seq(*inp) + content_lines_upto(*inp, (i - start) as nat),
        decreases end - i,
    {
        proof {
            lemma_step_mul_bound(i as int, inp.frame_max as int, d.frame_step as int);
        }
        let frame = i * d.frame_step;
        push_content_line(&mut out, inp, frame);
        i = i + 1;
        proof {
            assert(frame as nat == tick_frame_at(*inp, i - start - 1));
            assert(out@ =~= base_rects_seq(*inp) + header_ticks_seq(*inp) + labels_seq(*inp)
                + slots_seq(*inp) + content_lines_upto(*inp, (i - start) as nat));
        }
    }
    if !visited_min {
        push_content_line(&mut out, inp, inp.frame_min);
    }
    if inp.frame_max != inp.frame_min {
        push_content_line(&mut out, inp, inp.frame_max);
    }
    proof {
        assert(out@ =~= layout_spec(*inp));
    }
    out
}

/// Whether a primitive, if it is a tick line, grid line or frame-number
/// label, sits inside the visible timeline. A label's x is 3px right of
/// the clipped tick position it belongs to.
pub open spec fn mark_respects_clip(inp: LayoutInput, p: DrawPrimitive) -> bool {
    match p {
        DrawPrimitive::Line { x, .. } => clip_lo(inp) <= x as int <= clip_hi(inp),
        DrawPrimitive::FrameNumber { x, .. } => clip_lo(inp) <= (x as int) - 3 <= clip_hi(inp),
        _ => true,
    }
}

/// Whether every timeline mark in a sequence respects the clip.
pub open spec fn all_marks_respect_clip(inp: LayoutInput, s: Seq<DrawPrimitive>) -> bool {
    forall|j: int| 0 <= j < s.len() ==> mark_respects_clip(inp, #[trigger] s[j])
}

/// Concatenation preserves the clip property.
proof fn lemma_clip_concat(inp: LayoutInput, a: Seq<DrawPrimitive>, b: Seq<DrawPrimitive>)
    requires
        all_marks_respect_clip(inp, a),
        all_marks_respect_clip(inp, b),
    ensures
        all_marks_respect_clip(inp, a + b),
{
    assert forall|j: int| 0 <= j < (a + b).len() implies mark_respects_clip(
        inp,
        #[trigger] (a + b)[j],
    ) by {
        if j < a.len() {
            assert((a + b)[j] == a[j]);
        } else {
            assert((a + b)[j] == b[j - a.len()]);
        }
    }
}

/// One visited frame's header contribution only draws marks inside the
/// clip.
proof fn lemma_header_tick_prims_clipped(inp: LayoutInput, frame: nat)
    requires
        wf_input(inp),
    ensures
        all_marks_respect_clip(inp, header_tick_prims(inp, frame)),
{
    let s = header_tick_prims(inp, frame);
    let px = frame_px(inp, frame as int);
    let a = if in_clip(inp, px) {
        seq![header_tick_line(inp, frame)]
    } else {
        Seq::<DrawPrimitive>::empty()
    };
    let b = if is_major_frame(inp, frame) && in_clip(inp, px) {
        seq![frame_number_text(inp, frame)]
    } else {
        Seq::<DrawPrimitive>::empty()
    };
    assert(s == a + b);
    assert forall|j: int| 0 <= j < s.len() implies mark_respects_clip(inp, #[trigger] s[j]) by {
        if j < a.len() {
            assert(s[j] == a[j]);
            assert(a[j] == header_tick_line(inp, frame));
            assert(in_clip(inp, px));
        } else {
            assert(s[j] == b[j - a.len()]);
            assert(b[j - a.len()] == frame_number_text(inp, frame));
            assert(in_clip(inp, px));
        }
    }
}

/// One visited frame's grid contribution only draws marks inside the
/// clip.
proof fn lemma_content_line_prims_clipped(inp: LayoutInput, frame: nat)
    requires
        wf_input(inp),
    ensures
        all_marks_respect_clip(inp, content_line_prims(inp, frame)),
{
    let s = content_line_prims(inp, frame);
    let px = frame_px(inp, frame as int);
    assert forall|j: int| 0 <= j < s.len() implies mark_respects_clip(inp, #[trigger] s[j]) by {
        assert(in_clip(inp, px));
        assert(s[j] == content_line_prim(inp, frame));
    }
}

/// Every header contribution of the first `n` iterations respects the
/// clip.
proof fn lemma_header_ticks_upto_clipped(inp: LayoutInput, n: nat)
    requires
        wf_input(inp),
    ensures
        all_marks_respect_clip(inp, header_ticks_upto(inp, n)),
    decreases n,
{
    if n > 0 {
        lemma_header_ticks_upto_clipped(inp, (n - 1) as nat);
        lemma_header_tick_prims_clipped(inp, tick_frame_at(inp, n - 1));
        lemma_clip_concat(
            inp,
            header_ticks_upto(inp, (n - 1) as nat),
            header_tick_prims(inp, tick_frame_at(inp, n - 1)),
        );
    }
}

/// Every grid contribution of the first `n` iterations respects the clip.
proof fn lemma_content_lines_upto_clipped(inp: LayoutInput, n: nat)
    requires
        wf_input(inp),
    ensures
        all_marks_respect_clip(inp, content_lines_upto(inp, n)),
    decreases n,
{
    if n > 0 {
        lemma_content_lines_upto_clipped(inp, (n - 1) as nat);
        lemma_content_line_prims_clipped(inp, tick_frame_at(inp, n - 1));
        lemma_clip_concat(
            inp,
            content_lines_upto(inp, (n - 1) as nat),
            content_line_prims(inp, tick_frame_at(inp, n - 1)),
        );
    }
}

/// The clipping invariant: whatever the frame range, every emitted tick
/// line, grid line and frame-number label sits between the end of the
/// legend column and the canvas's right edge.
pub proof fn lemma_marks_confined_to_clip(inp: LayoutInput)
    requires
        wf_input(inp),
    ensures
        all_marks_respect_clip(inp, layout_spec(inp)),
{
    let upto = header_ticks_upto(inp, tick_loop_len(inp));
    let tick_min_seg = if loop_covers_min(inp) {
        Seq::<DrawPrimitive>::empty()
    } else {
        header_tick_prims(inp, inp.frame_min as nat)
    };
    let tick_max_seg = if inp.frame_max == inp.frame_min {
        Seq::<DrawPrimitive>::empty()
    } else {
        header_tick_prims(inp, inp.frame_max as nat)
    };
    lemma_header_ticks_upto_clipped(inp, tick_loop_len(inp));
    lemma_header_tick_prims_clipped(inp, inp.frame_min as nat);
    lemma_header_tick_prims_clipped(inp, inp.frame_max as nat);
    lemma_clip_concat(inp, upto, tick_min_seg);
    lemma_clip_concat(inp, upto + tick_min_seg, tick_max_seg);

    let cupto = content_lines_upto(inp, tick_loop_len(inp));
    let line_min_seg = if loop_covers_min(inp) {
        Seq::<DrawPrimitive>::empty()
    } else {
        content_line_prims(inp, inp.frame_min as nat)
    };
    let line_max_seg = if inp.frame_max == inp.frame_min {
        Seq::<DrawPrimitive>::empty()
    } else {
        content_line_prims(inp, inp.frame_max as nat)
    };
    lemma_content_lines_upto_clipped(inp, tick_loop_len(inp));
    lemma_content_line_prims_clipped(inp, inp.frame_min as nat);
    lemma_content_line_prims_clipped(inp, inp.frame_max as nat);
    lemma_clip_concat(inp, cupto, line_min_seg);
    lemma_clip_concat(inp, cupto + line_min_seg, line_max_seg);

    assert(all_marks_respect_clip(inp, base_rects_seq(inp)));
    assert(all_marks_respect_clip(inp, labels_seq(inp)));
    assert(all_marks_respect_clip(inp, slots_seq(inp)));
    lemma_clip_concat(inp, base_rects_seq(inp), header_ticks_seq(inp));
    lemma_clip_concat(inp, base_rects_seq(inp) + header_ticks_seq(inp), labels_seq(inp));
    lemma_clip_concat(
        inp,
        base_rects_seq(inp) + header_ticks_seq(inp) + labels_seq(inp),
        slots_seq(inp),
    );
    lemma_clip_concat(
        inp,
        base_rects_seq(inp) + header_ticks_seq(inp) + labels_seq(inp) + slots_seq(inp),
        content_lines_seq(inp),
    );
}

/// When the canvas is narrower than the legend column the clip interval
/// is empty, so no tick line, grid line or frame-number label is emitted
/// at all — only the background rectangles and item rows remain.
pub proof fn lemma_empty_clip_draws_no_marks(inp: LayoutInput)
    requires
        wf_input(inp),
        clip_hi(inp) < clip_lo(inp),
    ensures
        forall|j: int|
            0 <= j < layout_spec(inp).len() ==> !((#[trigger] layout_spec(inp)[j]) matches
                DrawPrimitive::Line { .. })
                && !(layout_spec(inp)[j] matches DrawPrimitive::FrameNumber { .. }),
{
    lemma_marks_confined_to_clip(inp);
}

/// An element of the left part is an element of the concatenation.
proof fn lemma_contains_left(a: Seq<DrawPrimitive>, b: Seq<DrawPrimitive>, x: DrawPrimitive)
    requires
        a.contains(x),
    ensures
        (a + b).contains(x),
{
    let i = choose|i: int| 0 <= i < a.len() && a[i] == x;
    assert((a + b)[i] == x);
}

/// An element of the right part is an element of the concatenation.
proof fn lemma_contains_right(a: Seq<DrawPrimitive>, b: Seq<DrawPrimitive>, x: DrawPrimitive)
    requires
        b.contains(x),
    ensures
        (a + b).contains(x),
{
    let i = choose|i: int| 0 <= i < b.len() && b[i] == x;
    assert((a + b)[a.len() + i] == x);
}

/// The tick loop's output starts with its first iteration's
/// contribution.
proof fn lemma_upto_starts_with_first(inp: LayoutInput, n: nat)
    requires
        1 <= n,
    ensures
        header_ticks_upto(inp, n).len() >= header_tick_prims(inp, tick_frame_at(inp, 0)).len(),
        forall|j: int|
            0 <= j < header_tick_prims(inp, tick_frame_at(inp, 0)).len() ==> #[trigger] header_ticks_upto(
                inp,
                n,
            )[j] == header_tick_prims(inp, tick_frame_at(inp, 0))[j],
    decreases n,
{
    let first = header_tick_prims(inp, tick_frame_at(inp, 0));
    if n == 1 {
        assert(header_ticks_upto(inp, 1) =~= first);
    } else {
        lemma_upto_starts_with_first(inp, (n - 1) as nat);
        assert forall|j: int| 0 <= j < first.len() implies #[trigger] header_ticks_upto(inp, n)[j]
            == first[j] by {
            assert(header_ticks_upto(inp, n)[j] == header_ticks_upto(inp, (n - 1) as nat)[j]);
        }
    }
}

/// Lift containment in the header-ticks region into the full draw list.
proof fn lemma_ticks_to_layout_contains(inp: LayoutInput, x: DrawPrimitive)
    requires
        header_ticks_seq(inp).contains(x),
    ensures
        layout_spec(inp).contains(x),
{
    let base = base_rects_seq(inp);
    let ticks = header_ticks_seq(inp);
    lemma_contains_right(base, ticks, x);
    lemma_contains_left(base + ticks, labels_seq(inp), x);
    lemma_contains_left(base + ticks + labels_seq(inp), slots_seq(inp), x);
    lemma_contains_left(base + ticks + labels_seq(inp) + slots_seq(inp), content_lines_seq(inp), x);
}

/// The two range endpoints are always classified major, stride alignment
/// or not — their ticks reach the major height — and, whenever an
/// endpoint's position is inside the clip, its major tick line and its
/// frame-number label are both in the emitted list, exactly through the
/// path that draws them: the strided loop when it lands on the endpoint,
/// the forced append otherwise.
pub proof fn lemma_endpoints_forced_major(inp: LayoutInput)
    requires
        wf_input(inp),
    ensures
        is_major_frame(inp, inp.frame_min as nat),
        is_major_frame(inp, inp.frame_max as nat),
        tick_start_offset(inp, inp.frame_min as nat) == 4,
        tick_start_offset(inp, inp.frame_max as nat) == 4,
        in_clip(inp, frame_px(inp, inp.frame_min as int)) ==> layout_spec(inp).contains(
            header_tick_line(inp, inp.frame_min as nat),
        ) && layout_spec(inp).contains(frame_number_text(inp, inp.frame_min as nat)),
        in_clip(inp, frame_px(inp, inp.frame_max as int)) ==> layout_spec(inp).contains(
            header_tick_line(inp, inp.frame_max as nat),
        ) && layout_spec(inp).contains(frame_number_text(inp, inp.frame_max as nat)),
{
    lemma_decimation_properties(inp.constants.frame_pixel_width as nat);
    let fmin = inp.frame_min as nat;
    let fmax = inp.frame_max as nat;
    let upto = header_ticks_upto(inp, tick_loop_len(inp));
    let prims_min = header_tick_prims(inp, fmin);
    let prims_max = header_tick_prims(inp, fmax);
    let tick_min_seg = if loop_covers_min(inp) {
        Seq::<DrawPrimitive>::empty()
    } else {
        prims_min
    };
    let tick_max_seg = if inp.frame_max == inp.frame_min {
        Seq::<DrawPrimitive>::empty()
    } else {
        prims_max
    };
    assert(header_ticks_seq(inp) == upto + tick_min_seg + tick_max_seg);

    if in_clip(inp, frame_px(inp, fmin as int)) {
        let line = header_tick_line(inp, fmin);
        let text = frame_number_text(inp, fmin);
        assert(prims_min[0] == line && prims_min[1] == text && prims_min.len() == 2);
        if loop_covers_min(inp) {
            let step = step_of(inp) as int;
            let q = (inp.frame_min as int) / step;
            lemma_fundamental_div_mod(inp.frame_min as int, step);
            assert(step * q == inp.frame_min as int);
            assert(q * step == step * q) by (nonlinear_arith);
            assert(tick_frame_at(inp, 0) == fmin);
            lemma_upto_starts_with_first(inp, tick_loop_len(inp));
            assert(upto[0] == line && upto[1] == text);
            assert(upto.contains(line) && upto.contains(text));
            lemma_contains_left(upto, tick_min_seg, line);
            lemma_contains_left(upto, tick_min_seg, text);
        } else {
            assert(tick_min_seg.contains(line) && tick_min_seg.contains(text));
            lemma_contains_right(upto, tick_min_seg, line);
            lemma_contains_right(upto, tick_min_seg, text);
        }
        lemma_contains_left(upto + tick_min_seg, tick_max_seg, line);
        lemma_contains_left(upto + tick_min_seg, tick_max_seg, text);
        lemma_ticks_to_layout_contains(inp, line);
        lemma_ticks_to_layout_contains(inp, text);
    }

    if in_clip(inp, frame_px(inp, fmax as int)) {
        let line = header_tick_line(inp, fmax);
        let text = frame_number_text(inp, fmax);
        if inp.frame_max == inp.frame_min {
            // the endpoints coincide: frame_max's marks are frame_min's,
            // settled above
            assert(line == header_tick_line(inp, fmin));
            assert(text == frame_number_text(inp, fmin));
        } else {
            assert(prims_max[0] == line && prims_max[1] == text && prims_max.len() == 2);
            assert(tick_max_seg.contains(line) && tick_max_seg.contains(text));
            lemma_contains_right(upto + tick_min_seg, tick_max_seg, line);
            lemma_contains_right(upto + tick_min_seg, tick_max_seg, text);
            lemma_ticks_to_layout_contains(inp, line);
            lemma_ticks_to_layout_contains(inp, text);
        }
    }
}

/// Idempotence: the engine keeps no hidden state, so two passes over the
/// same input emit the same ordered draw list. Each pass equals
/// [`layout_spec`] on its input, and that is a function of the input
/// alone.
pub proof fn lemma_layout_deterministic(
    inp: LayoutInput,
    first: Seq<DrawPrimitive>,
    second: Seq<DrawPrimitive>,
)
    requires
        first == layout_spec(inp),
        second == layout_spec(inp),
    ensures
        first == second,
{
}

} // verus!
