use ui_host::graphics::{GraphicsState, SurfaceConfig, Viewport};
use ui_host::host::{Action, Event, Host, Phase, SurfaceError};

fn graphics() -> GraphicsState {
    GraphicsState::new(SurfaceConfig { format: 0, width: 800, height: 600, present_mode: 0, alpha_mode: 0 })
}

fn ready() -> Host {
    let mut h = Host::new();
    assert!(h.initialize(graphics()));
    h
}

#[test]
fn redraw_while_uninitialized_is_ignored() {
    let mut h = Host::new();
    assert_eq!(h.handle_event(Event::RedrawRequested), Action::Nothing);
    assert_eq!(h.phase, Phase::Uninitialized);
    assert_eq!(h.handle_event(Event::CloseRequested), Action::Nothing);
    assert_eq!(h.handle_event(Event::EventsDrained), Action::Nothing);
    assert!(!h.is_ready());
}

#[test]
fn initialize_only_once() {
    let mut h = ready();
    assert!(h.is_ready());
    let other = GraphicsState::new(SurfaceConfig { format: 1, width: 1, height: 1, present_mode: 0, alpha_mode: 0 });
    assert!(!h.initialize(other));
    assert_eq!(h.phase, Phase::Ready(graphics()));
}

#[test]
fn zero_width_resize_keeps_configuration() {
    let mut h = ready();
    assert_eq!(h.handle_event(Event::Resized { width: 0, height: 600 }), Action::Nothing);
    assert_eq!(h.phase, Phase::Ready(graphics()));
}

#[test]
fn resize_and_scale_change_reconfigure() {
    let mut h = ready();
    let a = h.handle_event(Event::Resized { width: 1024, height: 768 });
    assert_eq!(a, Action::Reconfigure(Viewport { width: 1024, height: 768 }));
    let a = h.handle_event(Event::ScaleFactorChanged { width: 2048, height: 1536 });
    assert_eq!(a, Action::Reconfigure(Viewport { width: 2048, height: 1536 }));
    match h.phase {
        Phase::Ready(g) => {
            assert_eq!((g.config.width, g.config.height), (2048, 1536));
            assert_eq!(g.size, Viewport { width: 2048, height: 1536 });
        }
        _ => panic!("host left the ready state"),
    }
}

#[test]
fn close_while_ready_terminates() {
    let mut h = ready();
    assert_eq!(h.handle_event(Event::CloseRequested), Action::Exit);
    assert!(h.is_closing());
    assert_eq!(h.handle_event(Event::RedrawRequested), Action::Nothing);
    assert_eq!(h.handle_event(Event::EventsDrained), Action::Nothing);
    assert_eq!(h.phase, Phase::Closing);
}

#[test]
fn drained_requests_redraw_and_redraw_renders() {
    let mut h = ready();
    assert_eq!(h.handle_event(Event::EventsDrained), Action::RequestRedraw);
    assert_eq!(h.handle_event(Event::RedrawRequested), Action::RenderFrame);
    assert_eq!(h.handle_event(Event::RedrawRequested), Action::RenderFrame);
    assert_eq!(h.handle_event(Event::Other), Action::Nothing);
    assert_eq!(h.phase, Phase::Ready(graphics()));
}

#[test]
fn frame_errors() {
    let mut h = ready();
    assert_eq!(h.frame_finished(Ok(())), Action::Nothing);
    assert_eq!(h.frame_finished(Err(SurfaceError::Timeout)), Action::Report(SurfaceError::Timeout));
    assert_eq!(h.frame_finished(Err(SurfaceError::Outdated)), Action::Report(SurfaceError::Outdated));
    assert_eq!(h.frame_finished(Err(SurfaceError::Lost)), Action::Report(SurfaceError::Lost));
    assert!(h.is_ready());
    assert_eq!(h.frame_finished(Err(SurfaceError::OutOfMemory)), Action::Exit);
    assert!(h.is_closing());
}
