use piet_demo::driver::{Driver, DriverAction, DriverEvent, FailureSite, Phase, WindowSize};

fn size(width: u32, height: u32) -> WindowSize {
    WindowSize { width, height }
}

fn running_driver() -> Driver {
    Driver::new(size(400, 400))
}

#[test]
fn new_driver_is_running() {
    let d = running_driver();
    assert_eq!(d.phase, Phase::Running);
    assert_eq!(d.window, size(400, 400));
    assert_eq!(d.buffer, size(400, 400));
}

#[test]
fn redraw_renders_at_window_size() {
    let mut d = running_driver();
    let action = d.step(DriverEvent::RedrawRequested { window: size(640, 480) });
    assert_eq!(action, DriverAction::RenderFrame { size: size(640, 480) });
    assert_eq!(d.phase, Phase::Running);
    assert_eq!(d.window, size(640, 480));
}

#[test]
fn escape_terminates_within_one_poll() {
    let mut d = running_driver();
    let action = d.step(DriverEvent::InputTick {
        escape_pressed: true,
        quit_requested: false,
        resized: None,
    });
    assert_eq!(action, DriverAction::Exit);
    assert_eq!(d.phase, Phase::Terminated);
}

#[test]
fn quit_terminates_even_with_pending_resize() {
    let mut d = running_driver();
    let action = d.step(DriverEvent::InputTick {
        escape_pressed: false,
        quit_requested: true,
        resized: Some(size(100, 100)),
    });
    assert_eq!(action, DriverAction::Exit);
    assert_eq!(d.phase, Phase::Terminated);
}

#[test]
fn plain_input_requests_redraw() {
    let mut d = running_driver();
    let action = d.step(DriverEvent::InputTick {
        escape_pressed: false,
        quit_requested: false,
        resized: None,
    });
    assert_eq!(action, DriverAction::RequestRedraw);
    assert_eq!(d.phase, Phase::Running);
}

#[test]
fn resize_sequence_syncs_surface_buffer_and_bitmap() {
    let mut d = running_driver();
    let s = size(800, 600);
    let a1 = d.step(DriverEvent::InputTick {
        escape_pressed: false,
        quit_requested: false,
        resized: Some(s),
    });
    assert_eq!(a1, DriverAction::ResizeSurface { size: s });
    let a2 = d.step(DriverEvent::SurfaceResized { ok: true, size: s });
    assert_eq!(a2, DriverAction::ResizeBuffer { size: s });
    let a3 = d.step(DriverEvent::BufferResized { ok: true, size: s });
    assert_eq!(a3, DriverAction::RequestRedraw);
    assert_eq!(d.buffer, s);
    let a4 = d.step(DriverEvent::RedrawRequested { window: s });
    assert_eq!(a4, DriverAction::RenderFrame { size: s });
}

#[test]
fn surface_resize_failure_terminates_without_render() {
    let mut d = running_driver();
    let s = size(800, 600);
    d.step(DriverEvent::InputTick {
        escape_pressed: false,
        quit_requested: false,
        resized: Some(s),
    });
    let action = d.step(DriverEvent::SurfaceResized { ok: false, size: s });
    assert_eq!(action, DriverAction::ReportFailure { site: FailureSite::ResizeSurface });
    assert_eq!(d.phase, Phase::Terminated);
    // The frame of that tick is never rendered: the loop only exits now.
    let after = d.step(DriverEvent::RedrawRequested { window: s });
    assert_eq!(after, DriverAction::Exit);
}

#[test]
fn buffer_resize_failure_terminates_without_render() {
    let mut d = running_driver();
    let s = size(800, 600);
    let action = d.step(DriverEvent::BufferResized { ok: false, size: s });
    assert_eq!(action, DriverAction::ReportFailure { site: FailureSite::ResizeBuffer });
    assert_eq!(d.phase, Phase::Terminated);
}

#[test]
fn presentation_failure_terminates() {
    let mut d = running_driver();
    let action = d.step(DriverEvent::Presented { ok: false });
    assert_eq!(action, DriverAction::ReportFailure { site: FailureSite::Render });
    assert_eq!(d.phase, Phase::Terminated);
}

#[test]
fn successful_presentation_continues() {
    let mut d = running_driver();
    let action = d.step(DriverEvent::Presented { ok: true });
    assert_eq!(action, DriverAction::Continue);
    assert_eq!(d.phase, Phase::Running);
}

#[test]
fn no_recovery_from_terminated() {
    let mut d = running_driver();
    d.step(DriverEvent::InputTick {
        escape_pressed: true,
        quit_requested: false,
        resized: None,
    });
    let events = [
        DriverEvent::RedrawRequested { window: size(1, 1) },
        DriverEvent::Presented { ok: true },
        DriverEvent::InputTick { escape_pressed: false, quit_requested: false, resized: None },
        DriverEvent::SurfaceResized { ok: true, size: size(2, 2) },
        DriverEvent::BufferResized { ok: true, size: size(2, 2) },
    ];
    for &event in &events {
        assert_eq!(d.step(event), DriverAction::Exit);
        assert_eq!(d.phase, Phase::Terminated);
    }
}
