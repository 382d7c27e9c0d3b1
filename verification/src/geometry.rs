//! Pixel-space geometry: layout scalars, canvas and content regions, and
//! the single frame-to-pixel mapping every draw primitive derives from.
//!
//! Coordinates are whole pixels. Every input scalar is bounded by
//! [`PIXEL_LIMIT`] so that all derived coordinates fit an `i64`; the host
//! toolkit's canvases are orders of magnitude smaller than the limit.

use vstd::prelude::*;

verus! {

/// Bound on every input coordinate and scalar, so that derived pixel
/// positions (frame index times pixel width plus offsets) fit an `i64`.
pub const PIXEL_LIMIT: i64 = 0x4000_0000;

/// Fixed layout scalars: how wide one frame renders, how wide the legend
/// column is, and how tall one row is.
#[derive(Debug, Clone, Copy, PartialEq, Eq)]
pub struct LayoutConstants {
    pub frame_pixel_width: u32,
    pub legend_width: u32,
    pub row_height: u32,
}

impl LayoutConstants {
    pub open spec fn wf(self) -> bool {
        &&& 1 <= self.frame_pixel_width as int <= PIXEL_LIMIT as int
        &&& self.legend_width as int <= PIXEL_LIMIT as int
        &&& 1 <= self.row_height as int <= PIXEL_LIMIT as int
    }
}

impl Default for LayoutConstants {
    /// The stock scalars: 10px frames, a 200px legend column, 20px rows.
    fn default() -> (c: Self)
        ensures
            c.frame_pixel_width == 10u32,
            c.legend_width == 200u32,
            c.row_height == 20u32,
            c.wf(),
    {
        Self { frame_pixel_width: 10, legend_width: 200, row_height: 20 }
    }
}

/// Where the widget's canvas sits on screen and how large it is.
#[derive(Debug, Clone, Copy, PartialEq, Eq)]
pub struct CanvasRegion {
    pub x: i64,
    pub y: i64,
    pub width: i64,
    pub height: i64,
}

impl CanvasRegion {
    pub open spec fn wf(self) -> bool {
        &&& -PIXEL_LIMIT <= self.x <= PIXEL_LIMIT
        &&& -PIXEL_LIMIT <= self.y <= PIXEL_LIMIT
        &&& 0 <= self.width <= PIXEL_LIMIT
        &&& 0 <= self.height <= PIXEL_LIMIT
    }
}

/// The rectangle the host reserved for the content rows, as reported back
/// after the interactive regions were registered.
#[derive(Debug, Clone, Copy, PartialEq, Eq)]
pub struct ContentRegion {
    pub min_x: i64,
    pub min_y: i64,
    pub max_x: i64,
    pub max_y: i64,
}

impl ContentRegion {
    pub open spec fn wf(self) -> bool {
        &&& -PIXEL_LIMIT <= self.min_x <= PIXEL_LIMIT
        &&& -PIXEL_LIMIT <= self.min_y <= PIXEL_LIMIT
        &&& -PIXEL_LIMIT <= self.max_x <= PIXEL_LIMIT
        &&& -PIXEL_LIMIT <= self.max_y <= PIXEL_LIMIT
    }
}

/// The one mapping from a frame index to a horizontal pixel position.
pub open spec fn pixel_x(canvas_x: int, legend_width: int, frame_pixel_width: int, frame: int) -> int {
    canvas_x + legend_width + frame * frame_pixel_width
}

/// The mapping stays comfortably inside `i64` for well-formed inputs.
pub proof fn lemma_pixel_x_in_range(
    canvas_x: int,
    legend_width: int,
    frame_pixel_width: int,
    frame: int,
)
    requires
        -PIXEL_LIMIT <= canvas_x <= PIXEL_LIMIT,
        0 <= legend_width <= PIXEL_LIMIT,
        0 <= frame_pixel_width <= PIXEL_LIMIT,
        0 <= frame < 0x1_0000_0000,
    ensures
        -PIXEL_LIMIT <= pixel_x(canvas_x, legend_width, frame_pixel_width, frame),
        pixel_x(canvas_x, legend_width, frame_pixel_width, frame) < 0x4000_0000_8000_0000,
        0 <= frame * frame_pixel_width < 0x4000_0000_0000_0000,
{
    assert(0 <= frame * frame_pixel_width < 0x4000_0000_0000_0000) by (nonlinear_arith)
        requires
            0 <= frame < 0x1_0000_0000,
            0 <= frame_pixel_width <= 0x4000_0000,
    ;
}

/// The mapping is strictly increasing in the frame index: a later frame
/// always lands strictly further right.
pub proof fn lemma_pixel_x_strictly_increasing(
    canvas_x: int,
    legend_width: int,
    frame_pixel_width: int,
    frame_a: int,
    frame_b: int,
)
    requires
        frame_pixel_width >= 1,
        legend_width >= 0,
        frame_a < frame_b,
    ensures
        pixel_x(canvas_x, legend_width, frame_pixel_width, frame_a)
            < pixel_x(canvas_x, legend_width, frame_pixel_width, frame_b),
{
    assert(frame_a * frame_pixel_width < frame_b * frame_pixel_width) by (nonlinear_arith)
        requires
            frame_a < frame_b,
            frame_pixel_width >= 1,
    ;
}

/// The frame-to-pixel mapping, as the engine computes it.
pub fn frame_to_pixel(
    canvas_x: i64,
    legend_width: u32,
    frame_pixel_width: u32,
    frame: u32,
) -> (px: i64)
    requires
        -PIXEL_LIMIT <= canvas_x <= PIXEL_LIMIT,
        legend_width as int <= PIXEL_LIMIT as int,
        frame_pixel_width as int <= PIXEL_LIMIT as int,
    ensures
        px == pixel_x(canvas_x as int, legend_width as int, frame_pixel_width as int, frame as int),
{
    proof {
        lemma_pixel_x_in_range(
            canvas_x as int,
            legend_width as int,
            frame_pixel_width as int,
            frame as int,
        );
    }
    canvas_x + (frame as i64) * (frame_pixel_width as i64) + (legend_width as i64)
}

/// The frame span, floored to one so later ratios never divide by zero.
pub fn frame_count(frame_min: u32, frame_max: u32) -> (n: u32)
    requires
        frame_min <= frame_max,
    ensures
        n as int == if frame_max - frame_min >= 1 {
            frame_max - frame_min
        } else {
            1int
        },
{
    let d = frame_max - frame_min;
    if d >= 1 {
        d
    } else {
        1
    }
}

/// How many whole frames fit between the legend column and the canvas's
/// right edge.
pub fn visible_frame_count(canvas_width: i64, legend_width: u32, frame_pixel_width: u32) -> (n: u32)
    requires
        0 <= canvas_width <= PIXEL_LIMIT,
        legend_width as int <= PIXEL_LIMIT as int,
        1 <= frame_pixel_width,
    ensures
        n as int == if canvas_width >= legend_width as int {
            (canvas_width - legend_width as int) / (frame_pixel_width as int)
        } else {
            0int
        },
{
    if canvas_width < legend_width as i64 {
        0
    } else {
        let span = (canvas_width - legend_width as i64) as u64;
        (span / (frame_pixel_width as u64)) as u32
    }
}

/// The scrollbar thumb width in whole pixels: the visible share of the
/// total frame span, capped at the full track width.
pub fn bar_width_pixels(visible_frames: u32, total_frames: u32, track_width: i64) -> (w: i64)
    requires
        1 <= total_frames,
        0 <= track_width <= PIXEL_LIMIT,
    ensures
        w == if visible_frames >= total_frames {
            track_width as int
        } else {
            ((visible_frames as int) * track_width) / (total_frames as int)
        },
{
    if visible_frames >= total_frames {
        track_width
    } else {
        proof {
            assert(0 <= (visible_frames as int) * (track_width as int)
                < 0x4000_0000_0000_0000) by (nonlinear_arith)
                requires
                    0 <= (visible_frames as int) < 0x1_0000_0000,
                    0 <= (track_width as int) <= 0x4000_0000,
            ;
        }
        (((visible_frames as u64) * (track_width as u64)) / (total_frames as u64)) as i64
    }
}

} // verus!
