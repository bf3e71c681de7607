//! The event shell: dispatch, resize reconfiguration, suspend/resume.

use sgl::application::{Dispatch, Key, KEY_BACKSPACE, KEY_RETURN};
use sgl::demo::DemoBuild;
use sgl::gl::{Context, GlCall};
use sgl::pianino::Application;
use sgl::program::BuildStatus;
use sgl::shell::{Action, Event, PixelFormat, Platform, ViewInit, WindowEvent};

fn demo_build() -> DemoBuild {
    DemoBuild {
        vertex_compile: BuildStatus::Success,
        fragment_compile: BuildStatus::Success,
        link: BuildStatus::Success,
        position_location: Some(0),
        offset_location: Some(1),
    }
}

fn view_init(width: u32, height: u32) -> ViewInit {
    ViewInit {
        format: PixelFormat {
            color_bits: 24,
            alpha_bits: 8,
            stencil_bits: 8,
            depth_bits: 0,
            srgb: false,
            multisampling: None,
        },
        width,
        height,
        dot_scale_milli: 1000,
    }
}

fn booted() -> (Context, Platform, Application) {
    let mut gl = Context::new();
    let mut app = Application::new(demo_build());
    let platform = Platform::new(&mut gl, Some(view_init(640, 480)), &mut app);
    (gl, platform, app)
}

#[test]
fn startup_reconfigures_once_before_any_redraw() {
    let (_gl, platform, app) = booted();
    assert_eq!(platform.dispatch_count(), 1);
    assert!(matches!(platform.dispatch_at(0), Dispatch::Reconf { conf }
        if conf.view_width == 640 && conf.view_height == 480));
    // The first reconfigure built the demo.
    assert!(app.has_demo());
}

#[test]
fn resize_reports_new_extent_and_viewport() {
    let (mut gl, mut platform, mut app) = booted();
    let act = platform.handle(
        &mut gl,
        Event::Window { event: WindowEvent::Resized { width: 800, height: 600 } },
        &mut app,
    );
    assert_eq!(act, None);
    let last = platform.dispatch_at(platform.dispatch_count() - 1).clone();
    assert!(matches!(last, Dispatch::Reconf { conf }
        if conf.view_width == 800 && conf.view_height == 600));
    // The viewport the shell issued for the resize matches the new size.
    let mut viewport = None;
    for i in 0..gl.call_count() {
        if let GlCall::Viewport { width, height, .. } = gl.call_at(i) {
            viewport = Some((width, height));
        }
    }
    assert_eq!(viewport, Some((800, 600)));
}

#[test]
fn scale_change_reports_new_scale() {
    let (mut gl, mut platform, mut app) = booted();
    platform.handle(
        &mut gl,
        Event::Window {
            event: WindowEvent::ScaleFactorChanged {
                dot_scale_milli: 2000,
                width: 1280,
                height: 960,
            },
        },
        &mut app,
    );
    let last = platform.dispatch_at(platform.dispatch_count() - 1).clone();
    assert!(matches!(last, Dispatch::Reconf { conf }
        if conf.dot_scale_milli == 2000 && conf.view_width == 1280));
}

#[test]
fn suspended_redraw_issues_no_call() {
    let (mut gl, mut platform, mut app) = booted();
    platform.handle(&mut gl, Event::Suspended, &mut app);
    assert!(matches!(
        platform.dispatch_at(platform.dispatch_count() - 1),
        Dispatch::Suspend
    ));
    let calls_before = gl.call_count();
    let dispatches_before = platform.dispatch_count();
    let act = platform.handle(&mut gl, Event::RedrawRequested, &mut app);
    assert_eq!(act, None);
    assert_eq!(gl.call_count(), calls_before);
    assert_eq!(platform.dispatch_count(), dispatches_before);
}

#[test]
fn resume_restores_rendering_with_one_reconfigure() {
    let (mut gl, mut platform, mut app) = booted();
    platform.handle(&mut gl, Event::Suspended, &mut app);
    let base = platform.dispatch_count();
    // A failed resume keeps the application viewless.
    platform.handle(&mut gl, Event::Resumed { view: None }, &mut app);
    assert_eq!(platform.dispatch_count(), base);
    let calls_before = gl.call_count();
    platform.handle(&mut gl, Event::RedrawRequested, &mut app);
    assert_eq!(gl.call_count(), calls_before);
    // A successful resume dispatches resume, then exactly one reconfigure.
    platform.handle(&mut gl, Event::Resumed { view: Some(view_init(320, 240)) }, &mut app);
    assert_eq!(platform.dispatch_count(), base + 2);
    assert!(matches!(platform.dispatch_at(base), Dispatch::Resume));
    assert!(matches!(platform.dispatch_at(base + 1), Dispatch::Reconf { conf }
        if conf.view_width == 320 && conf.view_height == 240));
    // The next redraw reaches the handler again and asks for a swap.
    let act = platform.handle(&mut gl, Event::RedrawRequested, &mut app);
    assert_eq!(act, Some(Action::SwapBuffers));
    assert!(matches!(
        platform.dispatch_at(platform.dispatch_count() - 1),
        Dispatch::Redraw
    ));
}

#[test]
fn redraw_renders_the_triangle() {
    let (mut gl, mut platform, mut app) = booted();
    let before = gl.call_count();
    let act = platform.handle(&mut gl, Event::RedrawRequested, &mut app);
    assert_eq!(act, Some(Action::SwapBuffers));
    let mut draws = Vec::new();
    for i in before..gl.call_count() {
        if let GlCall::DrawArrays { mode_code, first, count } = gl.call_at(i) {
            draws.push((mode_code, first, count));
        }
    }
    assert_eq!(draws, vec![(sgl::gl::TRIANGLES, 0, 3)]);
}

#[test]
fn escape_and_close_request_exit() {
    let (mut gl, mut platform, mut app) = booted();
    let act = platform.handle(
        &mut gl,
        Event::Window {
            event: WindowEvent::KeyboardInput { key: Key::Escape, pressed: true },
        },
        &mut app,
    );
    assert_eq!(act, Some(Action::Exit));
    let act = platform.handle(
        &mut gl,
        Event::Window { event: WindowEvent::CloseRequested },
        &mut app,
    );
    assert_eq!(act, Some(Action::Exit));
    // Neither reached the handler.
    for i in 0..platform.dispatch_count() {
        assert!(!matches!(platform.dispatch_at(i), Dispatch::Key { .. }));
    }
}

#[test]
fn redraw_events_cleared_requests_a_redraw_while_visible() {
    let (mut gl, mut platform, mut app) = booted();
    let act = platform.handle(&mut gl, Event::RedrawEventsCleared, &mut app);
    assert_eq!(act, Some(Action::RequestRedraw));
    platform.handle(&mut gl, Event::Suspended, &mut app);
    let act = platform.handle(&mut gl, Event::RedrawEventsCleared, &mut app);
    assert_eq!(act, None);
}

#[test]
fn input_events_edit_the_text() {
    let (mut gl, mut platform, mut app) = booted();
    assert_eq!(app.text().iter().collect::<String>(), "Text");
    platform.handle(
        &mut gl,
        Event::Window { event: WindowEvent::ReceivedCharacter { character: '!' } },
        &mut app,
    );
    assert_eq!(app.text().iter().collect::<String>(), "Text!");
    // A control character is dropped.
    platform.handle(
        &mut gl,
        Event::Window { event: WindowEvent::ReceivedCharacter { character: '\u{8}' } },
        &mut app,
    );
    assert_eq!(app.text().iter().collect::<String>(), "Text!");
    // Backspace removes, return breaks the line; releases do nothing.
    platform.handle(
        &mut gl,
        Event::Window {
            event: WindowEvent::KeyboardInput { key: Key::Code(KEY_BACKSPACE), pressed: true },
        },
        &mut app,
    );
    assert_eq!(app.text().iter().collect::<String>(), "Text");
    platform.handle(
        &mut gl,
        Event::Window {
            event: WindowEvent::KeyboardInput { key: Key::Code(KEY_RETURN), pressed: true },
        },
        &mut app,
    );
    assert_eq!(app.text().iter().collect::<String>(), "Text\n");
    platform.handle(
        &mut gl,
        Event::Window {
            event: WindowEvent::KeyboardInput { key: Key::Code(KEY_BACKSPACE), pressed: false },
        },
        &mut app,
    );
    assert_eq!(app.text().iter().collect::<String>(), "Text\n");
}

#[test]
fn pointer_dispatch_carries_the_scale() {
    let (mut gl, mut platform, mut app) = booted();
    platform.handle(
        &mut gl,
        Event::Window { event: WindowEvent::CursorMoved { x_milli: 12500, y_milli: 7250 } },
        &mut app,
    );
    let last = platform.dispatch_at(platform.dispatch_count() - 1).clone();
    assert_eq!(
        last,
        Dispatch::Pointer { x_milli: 12500, y_milli: 7250, dot_scale_milli: 1000 }
    );
}

#[test]
fn failed_demo_build_leaves_redraw_clearing_only() {
    let mut gl = Context::new();
    let mut app = Application::new(DemoBuild {
        vertex_compile: BuildStatus::Failure(String::from("broken")),
        fragment_compile: BuildStatus::Success,
        link: BuildStatus::Success,
        position_location: None,
        offset_location: None,
    });
    let mut platform = Platform::new(&mut gl, Some(view_init(640, 480)), &mut app);
    assert!(!app.has_demo());
    let before = gl.call_count();
    platform.handle(&mut gl, Event::RedrawRequested, &mut app);
    // The frame is cleared, but nothing is drawn.
    let mut cleared = false;
    for i in before..gl.call_count() {
        match gl.call_at(i) {
            GlCall::Clear { .. } => cleared = true,
            GlCall::DrawArrays { .. } => panic!("nothing should be drawn"),
            _ => {}
        }
    }
    assert!(cleared);
}

#[test]
fn second_reconfigure_does_not_rebuild_the_demo() {
    let (mut gl, mut platform, mut app) = booted();
    let creations = |gl: &Context| {
        let mut n = 0;
        for i in 0..gl.call_count() {
            if matches!(gl.call_at(i), GlCall::CreateProgram { .. }) {
                n += 1;
            }
        }
        n
    };
    assert_eq!(creations(&gl), 1);
    platform.handle(
        &mut gl,
        Event::Window { event: WindowEvent::Resized { width: 300, height: 200 } },
        &mut app,
    );
    assert_eq!(creations(&gl), 1);
}

#[test]
fn destroy_reaches_the_handler() {
    let (mut gl, mut platform, mut app) = booted();
    platform.handle(&mut gl, Event::LoopDestroyed, &mut app);
    assert!(matches!(
        platform.dispatch_at(platform.dispatch_count() - 1),
        Dispatch::Destroy
    ));
}
