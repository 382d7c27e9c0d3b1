//! The color palette a sequencer layout draws with.
//!
//! Colors are packed 0xAARRGGBB words passed by value; the palette carries
//! no geometry. It is built once by the owning application, optionally
//! adjusted through the builder-style setters, and read by the layout
//! engine through the getters.

use vstd::prelude::*;

verus! {

/// Seven named colors: header background, canvas background, ruler-top
/// background, major-tick color, minor-grid color, frame-number text color,
/// and the two alternating slot-row colors.
#[derive(Debug, Clone, Copy, PartialEq, Eq)]
pub struct SequencerStyle {
    pub header_color: u32,
    pub bg_color: u32,
    pub top_color: u32,
    pub head_tick_color: u32,
    pub body_tick_color: u32,
    pub frame_num_color: u32,
    pub slot_color: [u32; 2],
}

impl Default for SequencerStyle {
    /// The stock palette.
    fn default() -> (s: Self)
        ensures
            s.header_color == 0xffff0000u32,
            s.bg_color == 0xff242424u32,
            s.top_color == 0xff3d3837u32,
            s.head_tick_color == 0xFF606060u32,
            s.body_tick_color == 0x30606060u32,
            s.frame_num_color == 0xFFBBBBBBu32,
            s.slot_color[0] == 0xff3a3636u32,
            s.slot_color[1] == 0xff413d3du32,
    {
        Self {
            header_color: 0xffff0000,
            bg_color: 0xff242424,
            top_color: 0xff3d3837,
            head_tick_color: 0xFF606060,
            body_tick_color: 0x30606060,
            frame_num_color: 0xFFBBBBBB,
            slot_color: [0xff3a3636, 0xff413d3d],
        }
    }
}

impl SequencerStyle {
    pub fn set_header_color(self, col: u32) -> (s: Self)
        ensures
            s == (Self { header_color: col, ..self }),
    {
        Self { header_color: col, ..self }
    }

    pub fn set_bg_color(self, col: u32) -> (s: Self)
        ensures
            s == (Self { bg_color: col, ..self }),
    {
        Self { bg_color: col, ..self }
    }

    pub fn set_top_color(self, col: u32) -> (s: Self)
        ensures
            s == (Self { top_color: col, ..self }),
    {
        Self { top_color: col, ..self }
    }

    pub fn set_head_tick_color(self, col: u32) -> (s: Self)
        ensures
            s == (Self { head_tick_color: col, ..self }),
    {
        Self { head_tick_color: col, ..self }
    }

    pub fn set_body_tick_color(self, col: u32) -> (s: Self)
        ensures
            s == (Self { body_tick_color: col, ..self }),
    {
        Self { body_tick_color: col, ..self }
    }

    pub fn set_frame_num_color(self, col: u32) -> (s: Self)
        ensures
            s == (Self { frame_num_color: col, ..self }),
    {
        Self { frame_num_color: col, ..self }
    }

    pub fn set_slot_color(self, col: [u32; 2]) -> (s: Self)
        ensures
            s == (Self { slot_color: col, ..self }),
    {
        Self { slot_color: col, ..self }
    }

    pub fn get_header_color(&self) -> (c: u32)
        ensures
            c == self.header_color,
    {
        self.header_color
    }

    pub fn get_bg_color(&self) -> (c: u32)
        ensures
            c == self.bg_color,
    {
        self.bg_color
    }

    pub fn get_top_color(&self) -> (c: u32)
        ensures
            c == self.top_color,
    {
        self.top_color
    }

    pub fn get_head_tick_color(&self) -> (c: u32)
        ensures
            c == self.head_tick_color,
    {
        self.head_tick_color
    }

    pub fn get_body_tick_color(&self) -> (c: u32)
        ensures
            c == self.body_tick_color,
    {
        self.body_tick_color
    }

    pub fn get_frame_num_color(&self) -> (c: u32)
        ensures
            c == self.frame_num_color,
    {
        self.frame_num_color
    }

    pub fn get_slot_color(&self) -> (c: [u32; 2])
        ensures
            c == self.slot_color,
    {
        self.slot_color
    }
}

} // verus!
