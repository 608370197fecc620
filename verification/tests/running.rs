use std::sync::Arc;

use winit::event::MouseScrollDelta;
use y_engine::app::DelegateCall;
use y_engine::event::{
    CursorPosition, ElementState, Key, MouseButton, TouchPhase, WindowEvent,
};
use y_engine::state::common::render::{
    CompositeAlphaMode, PresentMode, RenderCore, SurfaceConfiguration,
};
use y_engine::state::starting::splash::SplashImage;
use y_engine::state::starting::StateMsg;
use y_engine::state::{running, starting};

fn config() -> SurfaceConfiguration {
    SurfaceConfiguration {
        format: wgpu::TextureFormat::Rgba8Unorm,
        width: 4,
        height: 4,
        present_mode: PresentMode::AutoVsync,
        alpha_mode: CompositeAlphaMode::Auto,
        view_formats: Vec::new(),
        desired_maximum_frame_latency: 2,
    }
}

fn running_state() -> running::State<&'static str, String> {
    let image = SplashImage::from_rgba8(1, 1, vec![0, 0, 0, 0]).unwrap();
    let (mut starting, worker_tx, _) =
        starting::State::<&'static str, u32>::new(Arc::new("window"), image);
    worker_tx
        .send(StateMsg::InitializedGpu { resources: 5, surface_config: config() })
        .unwrap();
    starting.handle_window_event(WindowEvent::RedrawRequested).unwrap();
    running::State::new(starting, |window: Arc<&'static str>, core: RenderCore<u32>| {
        format!("{} {} {:?}", window, core.resources, core.surface_config.format)
    })
}

#[test]
fn promotion_hands_window_and_render_core_to_the_factory() {
    let state = running_state();
    assert_eq!(state.app, "window 5 Rgba8Unorm");
    assert_eq!(*state._window, "window");
}

#[test]
fn every_known_event_is_forwarded() {
    let state = running_state();
    let position = CursorPosition { x: 3, y: 4 };
    let delta = MouseScrollDelta::LineDelta(0.0, -1.0);
    let cases = [
        (WindowEvent::CloseRequested, DelegateCall::WindowCloseRequested),
        (
            WindowEvent::Resized { width: 800, height: 600 },
            DelegateCall::WindowResized { width: 800, height: 600 },
        ),
        (WindowEvent::RedrawRequested, DelegateCall::WindowRedraw),
        (
            WindowEvent::MouseInput { state: ElementState::Pressed, button: MouseButton::Left },
            DelegateCall::MouseButtonInput {
                button: MouseButton::Left,
                state: ElementState::Pressed,
            },
        ),
        (
            WindowEvent::MouseWheel { delta, phase: TouchPhase::Moved },
            DelegateCall::MouseWheelInput { delta, phase: TouchPhase::Moved },
        ),
        (
            WindowEvent::KeyboardInput { key: Key::Character('q'), state: ElementState::Released },
            DelegateCall::KeyboardButtonInput {
                key: Key::Character('q'),
                state: ElementState::Released,
            },
        ),
        (WindowEvent::CursorMoved { position }, DelegateCall::CursorMoved { position }),
        (WindowEvent::CursorEntered, DelegateCall::CursorEnteredWindow),
        (WindowEvent::CursorLeft, DelegateCall::CursorLeftWindow),
    ];
    for (event, call) in cases {
        assert_eq!(state.handle_window_event(event, false), Some(call));
        assert_eq!(state.handle_window_event(event, true), None);
    }
}

#[test]
fn resize_to_an_empty_area_is_not_forwarded() {
    let state = running_state();
    assert_eq!(
        state.handle_window_event(WindowEvent::Resized { width: 0, height: 0 }, false),
        None
    );
    assert_eq!(
        state.handle_window_event(WindowEvent::Resized { width: 0, height: 9 }, false),
        None
    );
    assert_eq!(
        state.handle_window_event(WindowEvent::Resized { width: 9, height: 0 }, false),
        None
    );
    assert_eq!(
        state.handle_window_event(WindowEvent::Resized { width: 1, height: 1 }, false),
        Some(DelegateCall::WindowResized { width: 1, height: 1 })
    );
}

#[test]
fn unknown_event_is_dropped() {
    let state = running_state();
    assert_eq!(state.handle_window_event(WindowEvent::Other, false), None);
    assert_eq!(state.handle_window_event(WindowEvent::Other, true), None);
}
