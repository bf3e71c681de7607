//! The platform shell: the view over the current context and the event
//! dispatch that drives an [`EventHandler`].
//!
//! The platform layer owns the real window and context; what it learns
//! and decides outside — the pixel format a context came with, whether
//! making a context current succeeded, the events the window system
//! delivered — reaches the shell as plain values.  The shell holds the
//! state machine: a [`Screen`] exists while a context is current, goes away
//! on suspension, and comes back on a successful resume; every event is
//! translated into at most one handler invocation, recorded in dispatch
//! order, and into an [`Action`] the platform performs.

use vstd::prelude::*;
use crate::gl::{Context, GlCall};
use crate::application::{Button, Dispatch, EventHandler, Key, Phase, ScrollDelta, ViewConfig};

verus! {

broadcast use {vstd::seq_lib::group_seq_properties, vstd::prelude::Seq::add_empty_right};

/// The surface properties the driver chose for a context.
#[derive(Clone, Copy, PartialEq, Eq, Debug)]
pub struct PixelFormat {
    pub color_bits: u8,
    pub alpha_bits: u8,
    pub stencil_bits: u8,
    pub depth_bits: u8,
    pub srgb: bool,
    pub multisampling: Option<u8>,
}

/// What the platform learned when it made a context current: the pixel
/// format, the view extent in physical pixels, and the device pixel
/// ratio in thousandths.
#[derive(Clone, Copy, PartialEq, Eq, Debug)]
pub struct ViewInit {
    pub format: PixelFormat,
    pub width: u32,
    pub height: u32,
    pub dot_scale_milli: u32,
}

impl ViewInit {
    /// The extent fits the API's signed viewport arguments.
    pub open spec fn wf(self) -> bool {
        &&& self.width <= i32::MAX
        &&& self.height <= i32::MAX
    }
}

/// A window event, translated to plain values by the platform layer.
/// Positions and scroll deltas are in thousandths of their device units.
pub enum WindowEvent {
    CloseRequested,
    Resized { width: u32, height: u32 },
    ScaleFactorChanged { dot_scale_milli: u32, width: u32, height: u32 },
    ReceivedCharacter { character: char },
    KeyboardInput { key: Key, pressed: bool },
    CursorMoved { x_milli: i64, y_milli: i64 },
    MouseInput { button: Button, pressed: bool },
    MouseWheel { delta: ScrollDelta },
    Touch { x_milli: i64, y_milli: i64, phase: Phase },
    CursorEntered,
    CursorLeft,
    Focused { state: bool },
    HoveredFile { path: String },
    HoveredFileCancelled,
    DroppedFile { path: String },
    Other,
}

/// One loop event, translated to plain values by the platform layer.
/// A resume carries the outcome of the platform's attempt to make a
/// context current: the new view's parameters, or nothing when the
/// attempt failed and the application stays without a view.
pub enum Event {
    RedrawRequested,
    RedrawEventsCleared,
    LoopDestroyed,
    Suspended,
    Resumed { view: Option<ViewInit> },
    Window { event: WindowEvent },
}

/// What the shell asks the platform to do after an event.
#[derive(Clone, Copy, PartialEq, Eq, Debug)]
pub enum Action {
    /// Leave the event loop.
    Exit,
    /// Schedule a redraw of the window.
    RequestRedraw,
    /// Present the frame that was just drawn.
    SwapBuffers,
}

/// The live view: the pixel format its context came with, its current
/// extent, and the device pixel ratio.
#[derive(Clone, Copy, PartialEq, Eq, Debug)]
pub struct Screen {
    pub format: PixelFormat,
    pub width: u32,
    pub height: u32,
    pub dot_scale_milli: u32,
}

/// Does this window event end the loop?  Closing the window does, and so
/// does the escape key, which the shell intercepts before the handler.
pub open spec fn exit_of(event: WindowEvent) -> bool {
    ||| event is CloseRequested
    ||| (event matches WindowEvent::KeyboardInput { key, .. } && key is Escape)
}

/// The window event's sizes fit the API's signed viewport arguments.
pub open spec fn event_sizes_ok(event: WindowEvent) -> bool {
    match event {
        WindowEvent::Resized { width, height } => width <= i32::MAX && height <= i32::MAX,
        WindowEvent::ScaleFactorChanged { width, height, .. } => width <= i32::MAX && height
            <= i32::MAX,
        _ => true,
    }
}

impl Screen {
    /// The view a fresh context yields.
    pub open spec fn from_init(params: ViewInit) -> Screen {
        Screen {
            format: params.format,
            width: params.width,
            height: params.height,
            dot_scale_milli: params.dot_scale_milli,
        }
    }

    /// The extent fits the API's signed viewport arguments.
    pub open spec fn wf(self) -> bool {
        &&& self.width <= i32::MAX
        &&& self.height <= i32::MAX
    }

    /// The calls that set up a fresh context: the clear colour (mid
    /// grey, opaque), the stencil clear value, and the full stencil
    /// write mask.
    pub open spec fn setup_calls() -> Seq<GlCall> {
        seq![
            GlCall::ClearColor {
                red_bits: 0x3F00_0000,
                green_bits: 0x3F00_0000,
                blue_bits: 0x3F00_0000,
                alpha_bits: 0x3F80_0000,
            },
            GlCall::ClearStencil { value: 0 },
            GlCall::StencilMask { mask: 0xFFFF_FFFF },
        ]
    }

    /// Adopts a context the platform made current and issues the fresh
    /// context's setup calls.
    pub fn try_init(gl: &mut Context, params: ViewInit) -> (v: Screen)
        requires
            old(gl).wf(),
            params.wf(),
        ensures
            final(gl).wf(),
            v == Screen::from_init(params),
            v.wf(),
            final(gl).log() == old(gl).log() + Screen::setup_calls(),
            final(gl).same_handles(*old(gl)),
    {
        gl.emit(
            GlCall::ClearColor {
                red_bits: 0x3F00_0000,
                green_bits: 0x3F00_0000,
                blue_bits: 0x3F00_0000,
                alpha_bits: 0x3F80_0000,
            },
        );
        gl.emit(GlCall::ClearStencil { value: 0 });
        gl.emit(GlCall::StencilMask { mask: 0xFFFF_FFFF });
        proof {
            assert(final(gl).log() =~= old(gl).log() + Screen::setup_calls());
        }
        Screen {
            format: params.format,
            width: params.width,
            height: params.height,
            dot_scale_milli: params.dot_scale_milli,
        }
    }

    /// The viewport call for this view's extent.
    pub open spec fn viewport_call(self) -> GlCall {
        GlCall::Viewport {
            x: 0,
            y: 0,
            width: self.width as i32,
            height: self.height as i32,
        }
    }

    /// Matches the API's viewport to the view's current extent.
    pub fn resize(&self, gl: &mut Context)
        requires
            old(gl).wf(),
            self.wf(),
        ensures
            final(gl).wf(),
            final(gl).log() == old(gl).log().push(self.viewport_call()),
            final(gl).same_handles(*old(gl)),
    {
        gl.emit(
            GlCall::Viewport {
                x: 0,
                y: 0,
                width: self.width as i32,
                height: self.height as i32,
            },
        );
    }

    /// The configuration snapshot this view reports: the pixel format's
    /// bit depths, a sample count of one when multisampling is off, and
    /// the current extent and scale.
    pub open spec fn spec_config(self) -> ViewConfig {
        ViewConfig {
            color_bits: self.format.color_bits,
            alpha_bits: self.format.alpha_bits,
            stencil_bits: self.format.stencil_bits,
            depth_bits: self.format.depth_bits,
            srgb_mode: self.format.srgb,
            num_samples: match self.format.multisampling {
                Option::Some(s) => s,
                Option::None => 1,
            },
            view_width: self.width,
            view_height: self.height,
            dot_scale_milli: self.dot_scale_milli,
        }
    }

    /// Builds the configuration snapshot.
    pub fn view_config(&self) -> (c: ViewConfig)
        ensures
            c == self.spec_config(),
    {
        let num_samples = match self.format.multisampling {
            Option::Some(s) => s,
            Option::None => 1,
        };
        ViewConfig::new(
            self.format.color_bits,
            self.format.alpha_bits,
            self.format.stencil_bits,
            self.format.depth_bits,
            self.format.srgb,
            num_samples,
            self.width,
            self.height,
            self.dot_scale_milli,
        )
    }

    /// Draws one frame through the handler.
    pub fn redraw<H: EventHandler>(
        &self,
        gl: &mut Context,
        trace: &mut Vec<Dispatch>,
        handler: &mut H,
    )
        requires
            old(gl).wf(),
        ensures
            final(gl).extends(*old(gl)),
            (*final(trace))@ == (*old(trace))@.push(Dispatch::Redraw),
    {
        trace.push(Dispatch::Redraw);
        handler.redraw(gl);
    }

    /// The view state after a window event: a resize or scale change
    /// adopts the new geometry, everything else leaves the view as it
    /// was.
    pub open spec fn spec_after(self, event: WindowEvent) -> Screen {
        match event {
            WindowEvent::Resized { width, height } => Screen { width, height, ..self },
            WindowEvent::ScaleFactorChanged { dot_scale_milli, width, height } => Screen {
                width,
                height,
                dot_scale_milli,
                ..self
            },
            _ => self,
        }
    }

    /// The handler invocations a window event produces: each input event
    /// is forwarded one-to-one; a resize or scale change reconfigures
    /// with the new snapshot; the close request and the escape key reach
    /// no handler at all.
    pub open spec fn dispatches_of(self, event: WindowEvent) -> Seq<Dispatch> {
        match event {
            WindowEvent::CloseRequested => Seq::empty(),
            WindowEvent::Resized { .. } => seq![
                Dispatch::Reconf { conf: self.spec_after(event).spec_config() },
            ],
            WindowEvent::ScaleFactorChanged { .. } => seq![
                Dispatch::Reconf { conf: self.spec_after(event).spec_config() },
            ],
            WindowEvent::ReceivedCharacter { character } => seq![Dispatch::Input { character }],
            WindowEvent::KeyboardInput { key, pressed } => if key is Escape {
                Seq::empty()
            } else {
                seq![Dispatch::Key { key, pressed }]
            },
            WindowEvent::CursorMoved { x_milli, y_milli } => seq![
                Dispatch::Pointer { x_milli, y_milli, dot_scale_milli: self.dot_scale_milli },
            ],
            WindowEvent::MouseInput { button, pressed } => seq![
                Dispatch::Button { button, pressed },
            ],
            WindowEvent::MouseWheel { delta } => match delta {
                ScrollDelta::Lines { dx_milli, dy_milli } => seq![
                    Dispatch::Scroll { dx_milli, dy_milli, pixelwise: false },
                ],
                ScrollDelta::Pixels { dx_milli, dy_milli } => seq![
                    Dispatch::Scroll { dx_milli, dy_milli, pixelwise: true },
                ],
            },
            WindowEvent::Touch { x_milli, y_milli, phase } => seq![
                Dispatch::Touch { x_milli, y_milli, phase },
            ],
            WindowEvent::CursorEntered => seq![Dispatch::Hover { state: true }],
            WindowEvent::CursorLeft => seq![Dispatch::Hover { state: false }],
            WindowEvent::Focused { state } => seq![Dispatch::Focus { state }],
            WindowEvent::HoveredFile { path } => seq![Dispatch::FileOver { path }],
            WindowEvent::HoveredFileCancelled => seq![Dispatch::FileOut],
            WindowEvent::DroppedFile { path } => seq![Dispatch::FileDrop { path }],
            WindowEvent::Other => Seq::empty(),
        }
    }

    /// The calls the shell itself issues for a window event, before any
    /// handler code runs: a resize or scale change re-aims the viewport
    /// at the new extent.
    pub open spec fn adapter_calls(self, event: WindowEvent) -> Seq<GlCall> {
        match event {
            WindowEvent::Resized { .. } => seq![self.spec_after(event).viewport_call()],
            WindowEvent::ScaleFactorChanged { .. } => seq![self.spec_after(event).viewport_call()],
            _ => Seq::empty(),
        }
    }

    /// Translates one window event: the view geometry is updated, the
    /// shell's own calls are issued, the handler is invoked as
    /// [`Self::dispatches_of`] records, and a close request or the
    /// escape key asks the loop to exit.
    pub fn handle<H: EventHandler>(
        &mut self,
        gl: &mut Context,
        trace: &mut Vec<Dispatch>,
        event: WindowEvent,
        handler: &mut H,
    ) -> (act: Option<Action>)
        requires
            old(gl).wf(),
            old(self).wf(),
            event_sizes_ok(event),
        ensures
            *final(self) == old(self).spec_after(event),
            final(self).wf(),
            final(gl).extends(*old(gl)),
            (old(gl).log() + old(self).adapter_calls(event)).is_prefix_of(final(gl).log()),
            (*final(trace))@ == (*old(trace))@ + old(self).dispatches_of(event),
            act == if exit_of(event) {
                Option::Some(Action::Exit)
            } else {
                Option::<Action>::None
            },
            !(event is Resized || event is ScaleFactorChanged) ==> final(gl).log()
                == old(gl).log() && final(gl).same_handles(*old(gl)),
    {
        let ghost prior_gl: Context = *gl;
        let ghost prior_trace: Seq<Dispatch> = trace@;
        match event {
            WindowEvent::CloseRequested => {
                proof {
                    assert((*final(trace))@ =~= prior_trace + old(self).dispatches_of(event));
                    assert(prior_gl.log().is_prefix_of(final(gl).log()));
                }
                Option::Some(Action::Exit)
            },
            WindowEvent::Resized { width, height } => {
                self.width = width;
                self.height = height;
                self.resize(gl);
                let conf = self.view_config();
                trace.push(Dispatch::Reconf { conf });
                handler.reconf(conf, gl);
                proof {
                    assert((*final(trace))@ =~= prior_trace + old(self).dispatches_of(event));
                    assert(prior_gl.log() + old(self).adapter_calls(event) =~= prior_gl.log().push(
                        old(self).spec_after(event).viewport_call(),
                    ));
                    crate::gl::lemma_prefix_transitive(
                        prior_gl.log() + old(self).adapter_calls(event),
                        prior_gl.log().push(old(self).spec_after(event).viewport_call()),
                        final(gl).log(),
                    );
                    crate::gl::lemma_prefix_transitive(
                        prior_gl.log(),
                        prior_gl.log() + old(self).adapter_calls(event),
                        final(gl).log(),
                    );
                }
                Option::None
            },
            WindowEvent::ScaleFactorChanged { dot_scale_milli, width, height } => {
                self.width = width;
                self.height = height;
                self.dot_scale_milli = dot_scale_milli;
                self.resize(gl);
                let conf = self.view_config();
                trace.push(Dispatch::Reconf { conf });
                handler.reconf(conf, gl);
                proof {
                    assert((*final(trace))@ =~= prior_trace + old(self).dispatches_of(event));
                    assert(prior_gl.log() + old(self).adapter_calls(event) =~= prior_gl.log().push(
                        old(self).spec_after(event).viewport_call(),
                    ));
                    crate::gl::lemma_prefix_transitive(
                        prior_gl.log() + old(self).adapter_calls(event),
                        prior_gl.log().push(old(self).spec_after(event).viewport_call()),
                        final(gl).log(),
                    );
                    crate::gl::lemma_prefix_transitive(
                        prior_gl.log(),
                        prior_gl.log() + old(self).adapter_calls(event),
                        final(gl).log(),
                    );
                }
                Option::None
            },
            WindowEvent::ReceivedCharacter { character } => {
                trace.push(Dispatch::Input { character });
                handler.input(character);
                proof {
                    assert((*final(trace))@ =~= prior_trace + old(self).dispatches_of(event));
                }
                Option::None
            },
            WindowEvent::KeyboardInput { key, pressed } => {
                match key {
                    Key::Escape => {
                        proof {
                            assert((*final(trace))@ =~= prior_trace + old(self).dispatches_of(event));
                        }
                        Option::Some(Action::Exit)
                    },
                    Key::Code(code) => {
                        trace.push(Dispatch::Key { key: Key::Code(code), pressed });
                        handler.key(Key::Code(code), pressed);
                        proof {
                            assert((*final(trace))@ =~= prior_trace + old(self).dispatches_of(event));
                        }
                        Option::None
                    },
                }
            },
            WindowEvent::CursorMoved { x_milli, y_milli } => {
                trace.push(
                    Dispatch::Pointer { x_milli, y_milli, dot_scale_milli: self.dot_scale_milli },
                );
                handler.pointer(x_milli, y_milli, self.dot_scale_milli);
                proof {
                    assert((*final(trace))@ =~= prior_trace + old(self).dispatches_of(event));
                }
                Option::None
            },
            WindowEvent::MouseInput { button, pressed } => {
                trace.push(Dispatch::Button { button, pressed });
                handler.button(button, pressed);
                proof {
                    assert((*final(trace))@ =~= prior_trace + old(self).dispatches_of(event));
                }
                Option::None
            },
            WindowEvent::MouseWheel { delta } => {
                let (dx_milli, dy_milli, pixelwise) = match delta {
                    ScrollDelta::Lines { dx_milli, dy_milli } => (
                        dx_milli,
                        dy_milli,
                        false,
                    ),
                    ScrollDelta::Pixels { dx_milli, dy_milli } => (
                        dx_milli,
                        dy_milli,
                        true,
                    ),
                };
                trace.push(Dispatch::Scroll { dx_milli, dy_milli, pixelwise });
                handler.scroll(dx_milli, dy_milli, pixelwise);
                proof {
                    assert((*final(trace))@ =~= prior_trace + old(self).dispatches_of(event));
                }
                Option::None
            },
            WindowEvent::Touch { x_milli, y_milli, phase } => {
                trace.push(Dispatch::Touch { x_milli, y_milli, phase });
                handler.touch(x_milli, y_milli, phase);
                proof {
                    assert((*final(trace))@ =~= prior_trace + old(self).dispatches_of(event));
                }
                Option::None
            },
            WindowEvent::CursorEntered => {
                trace.push(Dispatch::Hover { state: true });
                handler.hover(true);
                proof {
                    assert((*final(trace))@ =~= prior_trace + old(self).dispatches_of(event));
                }
                Option::None
            },
            WindowEvent::CursorLeft => {
                trace.push(Dispatch::Hover { state: false });
                handler.hover(false);
                proof {
                    assert((*final(trace))@ =~= prior_trace + old(self).dispatches_of(event));
                }
                Option::None
            },
            WindowEvent::Focused { state } => {
                trace.push(Dispatch::Focus { state });
                handler.focus(state);
                proof {
                    assert((*final(trace))@ =~= prior_trace + old(self).dispatches_of(event));
                }
                Option::None
            },
            WindowEvent::HoveredFile { path } => {
                trace.push(Dispatch::FileOver { path: path.clone() });
                handler.file_over(path);
                proof {
                    assert((*final(trace))@ =~= prior_trace + old(self).dispatches_of(event));
                }
                Option::None
            },
            WindowEvent::HoveredFileCancelled => {
                trace.push(Dispatch::FileOut);
                handler.file_out();
                proof {
                    assert((*final(trace))@ =~= prior_trace + old(self).dispatches_of(event));
                }
                Option::None
            },
            WindowEvent::DroppedFile { path } => {
                trace.push(Dispatch::FileDrop { path: path.clone() });
                handler.file_drop(path);
                proof {
                    assert((*final(trace))@ =~= prior_trace + old(self).dispatches_of(event));
                }
                Option::None
            },
            WindowEvent::Other => {
                proof {
                    assert((*final(trace))@ =~= prior_trace + old(self).dispatches_of(event));
                }
                Option::None
            },
        }
    }
}

/// The shell's top-level state: the live view, if any, and the record of
/// every handler invocation so far, in dispatch order.
pub struct Platform {
    screen: Option<Screen>,
    dispatched: Vec<Dispatch>,
}

impl Platform {
    /// The live view, or nothing while suspended or without a context.
    pub closed spec fn spec_screen(self) -> Option<Screen> {
        self.screen
    }

    /// Every handler invocation so far, in dispatch order.
    pub closed spec fn trace(self) -> Seq<Dispatch> {
        self.dispatched@
    }

    /// The shell's state is well-formed: a live view has a bounded
    /// extent.
    pub open spec fn wf(self) -> bool {
        self.spec_screen() matches Option::Some(s) ==> s.wf()
    }

    /// Is a view live right now?
    pub fn has_screen(&self) -> (r: bool)
        ensures
            r == (self.spec_screen() is Some),
    {
        self.screen.is_some()
    }

    /// How many handler invocations have been dispatched.
    pub fn dispatch_count(&self) -> (n: usize)
        ensures
            n == self.trace().len(),
    {
        self.dispatched.len()
    }

    /// The `i`-th handler invocation dispatched.
    pub fn dispatch_at(&self, i: usize) -> (d: &Dispatch)
        requires
            i < self.trace().len(),
        ensures
            *d == self.trace()[i as int],
    {
        &self.dispatched[i]
    }

    /// The calls a fresh view's adoption issues: the context setup and a
    /// viewport matching its extent.
    pub open spec fn acquire_calls(params: ViewInit) -> Seq<GlCall> {
        Screen::setup_calls() + seq![Screen::from_init(params).viewport_call()]
    }

    /// Builds the shell.  When the platform already made a context
    /// current, the view is adopted, its viewport aimed, and the handler
    /// reconfigured once, before any redraw can happen.
    pub fn new<H: EventHandler>(
        gl: &mut Context,
        initial: Option<ViewInit>,
        handler: &mut H,
    ) -> (p: Platform)
        requires
            old(gl).wf(),
            initial matches Option::Some(params) ==> params.wf(),
        ensures
            p.wf(),
            final(gl).extends(*old(gl)),
            match initial {
                Option::Some(params) => {
                    &&& p.spec_screen() == Option::Some(Screen::from_init(params))
                    &&& p.trace() =~= seq![
                        Dispatch::Reconf { conf: Screen::from_init(params).spec_config() },
                    ]
                    &&& (old(gl).log() + Platform::acquire_calls(params)).is_prefix_of(
                        final(gl).log(),
                    )
                },
                Option::None => {
                    &&& p.spec_screen() is None
                    &&& p.trace() =~= Seq::<Dispatch>::empty()
                    &&& final(gl).log() == old(gl).log()
                    &&& final(gl).same_handles(*old(gl))
                },
            },
    {
        let ghost prior_gl: Context = *gl;
        match initial {
            Option::Some(params) => {
                let screen = Screen::try_init(gl, params);
                screen.resize(gl);
                let conf = screen.view_config();
                let mut dispatched: Vec<Dispatch> = Vec::new();
                dispatched.push(Dispatch::Reconf { conf });
                handler.reconf(conf, gl);
                proof {
                    assert(prior_gl.log() + Platform::acquire_calls(params) =~= (prior_gl.log()
                        + Screen::setup_calls()).push(Screen::from_init(params).viewport_call()));
                    crate::gl::lemma_prefix_transitive(
                        prior_gl.log() + Platform::acquire_calls(params),
                        (prior_gl.log() + Screen::setup_calls()).push(
                            Screen::from_init(params).viewport_call(),
                        ),
                        gl.log(),
                    );
                    crate::gl::lemma_prefix_transitive(
                        prior_gl.log(),
                        prior_gl.log() + Platform::acquire_calls(params),
                        gl.log(),
                    );
                }
                Platform { screen: Option::Some(screen), dispatched }
            },
            Option::None => {
                Platform { screen: Option::None, dispatched: Vec::new() }
            },
        }
    }

    /// The handler invocations one loop event produces.
    pub open spec fn dispatches_of(self, event: Event) -> Seq<Dispatch> {
        match event {
            Event::RedrawRequested => if self.spec_screen() is Some {
                seq![Dispatch::Redraw]
            } else {
                Seq::empty()
            },
            Event::RedrawEventsCleared => Seq::empty(),
            Event::LoopDestroyed => seq![Dispatch::Destroy],
            Event::Suspended => seq![Dispatch::Suspend],
            Event::Resumed { view } => match view {
                Option::Some(params) => if self.spec_screen() is None {
                    seq![
                        Dispatch::Resume,
                        Dispatch::Reconf { conf: Screen::from_init(params).spec_config() },
                    ]
                } else {
                    Seq::empty()
                },
                Option::None => Seq::empty(),
            },
            Event::Window { event } => match self.spec_screen() {
                Option::Some(s) => s.dispatches_of(event),
                Option::None => Seq::empty(),
            },
        }
    }

    /// The view state after a loop event: suspension drops it, a
    /// successful resume restores it, window events resize it.
    pub open spec fn screen_after(self, event: Event) -> Option<Screen> {
        match event {
            Event::Suspended => Option::None,
            Event::Resumed { view } => match view {
                Option::Some(params) => if self.spec_screen() is None {
                    Option::Some(Screen::from_init(params))
                } else {
                    self.spec_screen()
                },
                Option::None => self.spec_screen(),
            },
            Event::Window { event } => match self.spec_screen() {
                Option::Some(s) => Option::Some(s.spec_after(event)),
                Option::None => Option::None,
            },
            _ => self.spec_screen(),
        }
    }

    /// The action the shell asks of the platform after a loop event.
    pub open spec fn action_of(self, event: Event) -> Option<Action> {
        match event {
            Event::RedrawRequested => if self.spec_screen() is Some {
                Option::Some(Action::SwapBuffers)
            } else {
                Option::None
            },
            Event::RedrawEventsCleared => if self.spec_screen() is Some {
                Option::Some(Action::RequestRedraw)
            } else {
                Option::None
            },
            Event::Window { event } => if self.spec_screen() is Some && exit_of(event) {
                Option::Some(Action::Exit)
            } else {
                Option::None
            },
            _ => Option::None,
        }
    }

    /// The calls the shell itself issues for a loop event, before any
    /// handler code runs.
    pub open spec fn adapter_calls(self, event: Event) -> Seq<GlCall> {
        match event {
            Event::Resumed { view } => match view {
                Option::Some(params) => if self.spec_screen() is None {
                    Platform::acquire_calls(params)
                } else {
                    Seq::empty()
                },
                Option::None => Seq::empty(),
            },
            Event::Window { event } => match self.spec_screen() {
                Option::Some(s) => s.adapter_calls(event),
                Option::None => Seq::empty(),
            },
            _ => Seq::empty(),
        }
    }

    /// Does this loop event reach the context at all?  A redraw or a
    /// window event while no view is live touches nothing: a suspended
    /// application issues no call.
    pub open spec fn touches_gl(self, event: Event) -> bool {
        match event {
            Event::RedrawRequested => self.spec_screen() is Some,
            Event::Resumed { view } => view is Some && self.spec_screen() is None,
            Event::Window { event } => self.spec_screen() is Some,
            _ => false,
        }
    }

    /// The loop event's payloads fit the machine limits the view asks of
    /// its extent.
    pub open spec fn event_wf(event: Event) -> bool {
        match event {
            Event::Resumed { view } => view matches Option::Some(params) ==> params.wf(),
            Event::Window { event } => event_sizes_ok(event),
            _ => true,
        }
    }

    /// Dispatches one loop event: the view comes and goes with
    /// suspension and resumption, window events are translated for the
    /// handler, and the returned action is what the platform should do
    /// next.  While no view is live, nothing reaches the context.
    pub fn handle<H: EventHandler>(
        &mut self,
        gl: &mut Context,
        event: Event,
        handler: &mut H,
    ) -> (act: Option<Action>)
        requires
            old(gl).wf(),
            old(self).wf(),
            Platform::event_wf(event),
        ensures
            final(self).wf(),
            final(self).spec_screen() == old(self).screen_after(event),
            final(self).trace() == old(self).trace() + old(self).dispatches_of(event),
            final(gl).extends(*old(gl)),
            (old(gl).log() + old(self).adapter_calls(event)).is_prefix_of(final(gl).log()),
            act == old(self).action_of(event),
            !old(self).touches_gl(event) ==> final(gl).log() == old(gl).log()
                && final(gl).same_handles(*old(gl)),
    {
        let ghost prior_gl: Context = *gl;
        let ghost prior_trace: Seq<Dispatch> = self.dispatched@;
        match event {
            Event::RedrawRequested => {
                let taken = self.screen.take();
                match taken {
                    Option::Some(s) => {
                        s.redraw(gl, &mut self.dispatched, handler);
                        self.screen = Option::Some(s);
                        proof {
                            assert(self.dispatched@ =~= prior_trace + old(self).dispatches_of(
                                event,
                            ));
                            crate::gl::lemma_prefix_transitive(
                                prior_gl.log(),
                                prior_gl.log() + old(self).adapter_calls(event),
                                gl.log(),
                            );
                        }
                        Option::Some(Action::SwapBuffers)
                    },
                    Option::None => {
                        self.screen = Option::None;
                        proof {
                            assert(self.dispatched@ =~= prior_trace + old(self).dispatches_of(
                                event,
                            ));
                        }
                        Option::None
                    },
                }
            },
            Event::RedrawEventsCleared => {
                proof {
                    assert(self.dispatched@ =~= prior_trace + old(self).dispatches_of(event));
                }
                if self.screen.is_some() {
                    Option::Some(Action::RequestRedraw)
                } else {
                    Option::None
                }
            },
            Event::LoopDestroyed => {
                self.dispatched.push(Dispatch::Destroy);
                handler.destroy();
                proof {
                    assert(self.dispatched@ =~= prior_trace + old(self).dispatches_of(event));
                }
                Option::None
            },
            Event::Suspended => {
                self.dispatched.push(Dispatch::Suspend);
                handler.suspend();
                self.screen = Option::None;
                proof {
                    assert(self.dispatched@ =~= prior_trace + old(self).dispatches_of(event));
                }
                Option::None
            },
            Event::Resumed { view } => {
                match view {
                    Option::Some(params) => {
                        if self.screen.is_none() {
                            let screen = Screen::try_init(gl, params);
                            screen.resize(gl);
                            let conf = screen.view_config();
                            self.screen = Option::Some(screen);
                            self.dispatched.push(Dispatch::Resume);
                            handler.resume();
                            self.dispatched.push(Dispatch::Reconf { conf });
                            handler.reconf(conf, gl);
                            proof {
                                assert(self.dispatched@ =~= prior_trace + old(
                                    self,
                                ).dispatches_of(event));
                                assert(prior_gl.log() + old(self).adapter_calls(event)
                                    =~= (prior_gl.log() + Screen::setup_calls()).push(
                                    Screen::from_init(params).viewport_call(),
                                ));
                                crate::gl::lemma_prefix_transitive(
                                    prior_gl.log() + old(self).adapter_calls(event),
                                    (prior_gl.log() + Screen::setup_calls()).push(
                                        Screen::from_init(params).viewport_call(),
                                    ),
                                    gl.log(),
                                );
                                crate::gl::lemma_prefix_transitive(
                                    prior_gl.log(),
                                    prior_gl.log() + old(self).adapter_calls(event),
                                    gl.log(),
                                );
                            }
                        } else {
                            proof {
                                assert(self.dispatched@ =~= prior_trace + old(
                                    self,
                                ).dispatches_of(event));
                            }
                        }
                        Option::None
                    },
                    Option::None => {
                        proof {
                            assert(self.dispatched@ =~= prior_trace + old(self).dispatches_of(
                                event,
                            ));
                        }
                        Option::None
                    },
                }
            },
            Event::Window { event: we } => {
                let taken = self.screen.take();
                match taken {
                    Option::Some(mut s) => {
                        let act = s.handle(gl, &mut self.dispatched, we, handler);
                        self.screen = Option::Some(s);
                        proof {
                            crate::gl::lemma_prefix_transitive(
                                prior_gl.log(),
                                prior_gl.log() + old(self).adapter_calls(event),
                                gl.log(),
                            );
                        }
                        act
                    },
                    Option::None => {
                        self.screen = Option::None;
                        proof {
                            assert(self.dispatched@ =~= prior_trace + old(self).dispatches_of(
                                event,
                            ));
                        }
                        Option::None
                    },
                }
            },
        }
    }
}

} // verus!
