//! The model interface the engine layouts from.
//!
//! The engine never sees a concrete application type: it reads frame
//! bounds, item count and palette through the [`Sequencer`] capability
//! trait, and writes exactly one piece of derived state back — the focus
//! flag. [`SequencerModel`] is a plain in-memory model for applications
//! that need nothing fancier; the owning application refreshes it before
//! each layout pass.

use vstd::prelude::*;

use crate::geometry::CanvasRegion;
use crate::geometry::ContentRegion;
use crate::geometry::LayoutConstants;
use crate::layout::compute_layout;
use crate::layout::layout_spec;
use crate::layout::wf_input;
use crate::layout::DrawPrimitive;
use crate::layout::LayoutInput;
use crate::options::SequencerOptions;
use crate::style::SequencerStyle;

verus! {

/// The capability interface between the engine and an application model:
/// frame-range bounds, item count, focus flag and palette. The caller
/// keeps the range ordered; the engine validates nothing beyond its
/// stated contracts.
pub trait Sequencer: Sized {
    /// The first frame of the range.
    spec fn frame_min_spec(&self) -> u32;

    /// The last frame of the range.
    spec fn frame_max_spec(&self) -> u32;

    /// How many item rows the content area holds.
    spec fn item_count_spec(&self) -> usize;

    /// Whether the widget's window had input focus last frame.
    spec fn focused_spec(&self) -> bool;

    /// The palette the engine draws with.
    spec fn style_spec(&self) -> SequencerStyle;

    fn get_frame_min(&self) -> (r: u32)
        ensures
            r == self.frame_min_spec(),
    ;

    fn get_frame_max(&self) -> (r: u32)
        ensures
            r == self.frame_max_spec(),
    ;

    fn get_item_count(&self) -> (r: usize)
        ensures
            r == self.item_count_spec(),
    ;

    fn get_focused(&self) -> (r: bool)
        ensures
            r == self.focused_spec(),
    ;

    fn get_style(&self) -> (r: &SequencerStyle)
        ensures
            *r == self.style_spec(),
    ;

    /// Record whether the window is focused; the one value the engine
    /// writes back, leaving everything else in the model untouched.
    fn set_focused(&mut self, focused: bool)
        ensures
            final(self).focused_spec() == focused,
            final(self).frame_min_spec() == old(self).frame_min_spec(),
            final(self).frame_max_spec() == old(self).frame_max_spec(),
            final(self).item_count_spec() == old(self).item_count_spec(),
            final(self).style_spec() == old(self).style_spec(),
    ;

    /// One layout pass over this model: reads the model through the
    /// interface and returns the full ordered draw list for the canvas.
    fn draw_primitives(
        &self,
        canvas: CanvasRegion,
        content: ContentRegion,
        constants: LayoutConstants,
        flags: SequencerOptions,
    ) -> (out: Vec<DrawPrimitive>)
        requires
            wf_input(
                (LayoutInput {
                    frame_min: self.frame_min_spec(),
                    frame_max: self.frame_max_spec(),
                    item_count: self.item_count_spec(),
                    style: self.style_spec(),
                    canvas,
                    content,
                    constants,
                }),
            ),
        ensures
            out@ == layout_spec(
                (LayoutInput {
                    frame_min: self.frame_min_spec(),
                    frame_max: self.frame_max_spec(),
                    item_count: self.item_count_spec(),
                    style: self.style_spec(),
                    canvas,
                    content,
                    constants,
                }),
            ),
    {
        let input = LayoutInput {
            frame_min: self.get_frame_min(),
            frame_max: self.get_frame_max(),
            item_count: self.get_item_count(),
            style: *self.get_style(),
            canvas,
            content,
            constants,
        };
        compute_layout(&input, flags)
    }
}

/// A plain in-memory model: the abstract state a layout needs and
/// nothing else.
#[derive(Debug, PartialEq, Eq)]
pub struct SequencerModel {
    pub frame_min: u32,
    pub frame_max: u32,
    pub item_count: usize,
    pub focused: bool,
    pub style: SequencerStyle,
}

impl SequencerModel {
    /// A model over an ordered frame range; starts unfocused.
    pub fn new(frame_min: u32, frame_max: u32, item_count: usize, style: SequencerStyle) -> (m:
        Self)
        requires
            frame_min <= frame_max,
        ensures
            m.frame_min == frame_min,
            m.frame_max == frame_max,
            m.item_count == item_count,
            m.style == style,
            !m.focused,
    {
        Self { frame_min, frame_max, item_count, focused: false, style }
    }

    /// Refresh the frame range before a pass, keeping it ordered.
    pub fn set_frame_range(&mut self, frame_min: u32, frame_max: u32)
        requires
            frame_min <= frame_max,
        ensures
            final(self).frame_min == frame_min,
            final(self).frame_max == frame_max,
            final(self).item_count == old(self).item_count,
            final(self).focused == old(self).focused,
            final(self).style == old(self).style,
    {
        self.frame_min = frame_min;
        self.frame_max = frame_max;
    }

    /// Refresh the item count before a pass.
    pub fn set_item_count(&mut self, item_count: usize)
        ensures
            final(self).item_count == item_count,
            final(self).frame_min == old(self).frame_min,
            final(self).frame_max == old(self).frame_max,
            final(self).focused == old(self).focused,
            final(self).style == old(self).style,
    {
        self.item_count = item_count;
    }
}

impl Sequencer for SequencerModel {
    open spec fn frame_min_spec(&self) -> u32 {
        self.frame_min
    }

    open spec fn frame_max_spec(&self) -> u32 {
        self.frame_max
    }

    open spec fn item_count_spec(&self) -> usize {
        self.item_count
    }

    open spec fn focused_spec(&self) -> bool {
        self.focused
    }

    open spec fn style_spec(&self) -> SequencerStyle {
        self.style
    }

    fn get_frame_min(&self) -> (r: u32) {
        self.frame_min
    }

    fn get_frame_max(&self) -> (r: u32) {
        self.frame_max
    }

    fn get_item_count(&self) -> (r: usize) {
        self.item_count
    }

    fn get_focused(&self) -> (r: bool) {
        self.focused
    }

    fn get_style(&self) -> (r: &SequencerStyle) {
        &self.style
    }

    fn set_focused(&mut self, focused: bool) {
        self.focused = focused;
    }
}

} // verus!
