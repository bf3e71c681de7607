//! The application-facing side of the shell: the handler callbacks, the
//! configuration snapshot they receive, and the plain-value forms of the
//! platform's input data.
//!
//! Positions, scroll deltas and scale factors arrive from the platform in
//! thousandths, so that fractional device values survive the trip through
//! plain integers.

use vstd::prelude::*;
use crate::gl::Context;

verus! {

/// The view snapshot reported on every reconfigure: the colour, alpha,
/// stencil and depth bit depths the driver chose, its sRGB flag and
/// sample count, the view extent in physical pixels, and the device
/// pixel ratio in thousandths.
#[derive(Clone, Copy, PartialEq, Eq, Debug)]
pub struct ViewConfig {
    pub color_bits: u8,
    pub alpha_bits: u8,
    pub stencil_bits: u8,
    pub depth_bits: u8,
    pub srgb_mode: bool,
    pub num_samples: u8,
    pub view_width: u32,
    pub view_height: u32,
    pub dot_scale_milli: u32,
}

impl ViewConfig {
    /// Builds the snapshot field by field.
    pub fn new(
        color_bits: u8,
        alpha_bits: u8,
        stencil_bits: u8,
        depth_bits: u8,
        srgb_mode: bool,
        num_samples: u8,
        view_width: u32,
        view_height: u32,
        dot_scale_milli: u32,
    ) -> (c: ViewConfig)
        ensures
            c == (ViewConfig {
                color_bits,
                alpha_bits,
                stencil_bits,
                depth_bits,
                srgb_mode,
                num_samples,
                view_width,
                view_height,
                dot_scale_milli,
            }),
    {
        ViewConfig {
            color_bits,
            alpha_bits,
            stencil_bits,
            depth_bits,
            srgb_mode,
            num_samples,
            view_width,
            view_height,
            dot_scale_milli,
        }
    }
}

/// The code the shell assigns to the backspace key.
pub const KEY_BACKSPACE: u32 = 8;

/// The code the shell assigns to the return key.
pub const KEY_RETURN: u32 = 13;

/// A keyboard key, as far as the shell distinguishes them: the escape key
/// ends the loop inside the adapter; every other key reaches the handler
/// under its platform code.
#[derive(Clone, Copy, PartialEq, Eq, Debug)]
pub enum Key {
    Escape,
    Code(u32),
}

/// A pointer button.
#[derive(Clone, Copy, PartialEq, Eq, Debug)]
pub enum Button {
    Left,
    Right,
    Middle,
    Other(u16),
}

/// The phase of a touch.
#[derive(Clone, Copy, PartialEq, Eq, Debug)]
pub enum Phase {
    Started,
    Moved,
    Ended,
    Cancelled,
}

/// A scroll step: whole lines, or exact pixels; both in thousandths.
#[derive(Clone, Copy, PartialEq, Eq, Debug)]
pub enum ScrollDelta {
    Lines { dx_milli: i32, dy_milli: i32 },
    Pixels { dx_milli: i32, dy_milli: i32 },
}

/// One handler invocation, as the adapter records it in dispatch order.
#[derive(Clone, PartialEq, Eq, Debug)]
pub enum Dispatch {
    Input { character: char },
    Key { key: Key, pressed: bool },
    Pointer { x_milli: i64, y_milli: i64, dot_scale_milli: u32 },
    Button { button: Button, pressed: bool },
    Scroll { dx_milli: i32, dy_milli: i32, pixelwise: bool },
    Touch { x_milli: i64, y_milli: i64, phase: Phase },
    Hover { state: bool },
    Focus { state: bool },
    FileOver { path: String },
    FileOut,
    FileDrop { path: String },
    Reconf { conf: ViewConfig },
    Redraw,
    Destroy,
    Suspend,
    Resume,
}

/// Application callbacks.
///
/// The two hooks that receive the context may issue calls and create or
/// delete resources, but must leave the context well-formed and never
/// rewrite what was already issued: everything the shell proves about
/// the call log rests on that.
pub trait EventHandler {
    /// Text input.
    fn input(&mut self, character: char) {
    }

    /// A key changed state.
    fn key(&mut self, key: Key, pressed: bool) {
    }

    /// The pointer moved.
    fn pointer(&mut self, x_milli: i64, y_milli: i64, dot_scale_milli: u32) {
    }

    /// A button changed state.
    fn button(&mut self, button: Button, pressed: bool) {
    }

    /// A scroll step.
    fn scroll(&mut self, dx_milli: i32, dy_milli: i32, pixelwise: bool) {
    }

    /// A touch changed phase.
    fn touch(&mut self, x_milli: i64, y_milli: i64, phase: Phase) {
    }

    /// The pointer entered or left the view.
    fn hover(&mut self, state: bool) {
    }

    /// The view gained or lost focus.
    fn focus(&mut self, state: bool) {
    }

    /// A file hovers over the view.
    fn file_over(&mut self, path: String) {
    }

    /// The hovering file left.
    fn file_out(&mut self) {
    }

    /// A file was dropped on the view.
    fn file_drop(&mut self, path: String) {
    }

    /// The view was (re)configured: a new size, scale or surface.
    fn reconf(&mut self, conf: ViewConfig, gl: &mut Context)
        requires
            old(gl).wf(),
        ensures
            final(gl).extends(*old(gl)),
    {
        proof {
            assert(gl.log() =~= gl.log().subrange(0, gl.log().len() as int));
        }
    }

    /// Draw a frame.
    fn redraw(&mut self, gl: &mut Context)
        requires
            old(gl).wf(),
        ensures
            final(gl).extends(*old(gl)),
    {
        proof {
            assert(gl.log() =~= gl.log().subrange(0, gl.log().len() as int));
        }
    }

    /// The loop is over.
    fn destroy(&mut self) {
    }

    /// The application is being backgrounded; the view is about to go.
    fn suspend(&mut self) {
    }

    /// A view exists again.
    fn resume(&mut self) {
    }
}

} // verus!
