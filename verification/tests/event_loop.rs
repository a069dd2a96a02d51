use gpu_shell::global_state::Command;
use gpu_shell::global_state::GlobalState;
use gpu_shell::global_state::Phase;
use gpu_shell::global_state::ShellOptions;
use gpu_shell::global_state::Signal;
use gpu_shell::inbuilt::event_loop::acquisition_failed;
use gpu_shell::inbuilt::event_loop::dispatch;
use gpu_shell::inbuilt::event_loop::dispatch_at;
use gpu_shell::inbuilt::event_loop::HostEvent;
use gpu_shell::inbuilt::setup::CompositeAlphaMode;
use gpu_shell::inbuilt::setup::PlatformProfile;
use gpu_shell::inbuilt::setup::PresentMode;
use gpu_shell::inbuilt::setup::SurfaceCapabilities;
use gpu_shell::inbuilt::setup::TextureFormat;
use gpu_shell::inbuilt::vertex_package::VertexPackage;
use gpu_shell::utility::structs::Extent;
use winit::dpi::PhysicalSize;
use winit::event::WindowEvent;

fn shell() -> GlobalState {
    let caps = SurfaceCapabilities {
        formats: vec![TextureFormat::Other { code: 1, srgb: true }],
        present_modes: vec![PresentMode::Fifo],
        alpha_modes: vec![CompositeAlphaMode::Auto],
    };
    let options = ShellOptions {
        profile: PlatformProfile::Desktop,
        vertex_package: VertexPackage::new(4, 6),
        offscreen_size: Extent::new(250, 250),
        history_capacity: 16,
    };
    GlobalState::new(Extent::new(800, 600), &caps, options).unwrap()
}

#[test]
fn window_close_request_ends_the_run() {
    let mut state = shell();
    assert_eq!(dispatch(&mut state, &WindowEvent::CloseRequested, false), Command::Exit);
    assert_eq!(state.phase(), Phase::Terminated);
}

#[test]
fn window_resize_is_taken_up_with_its_size() {
    let mut state = shell();
    let event = WindowEvent::Resized(PhysicalSize::new(1280, 720));
    match dispatch(&mut state, &event, false) {
        Command::ConfigureSurface(config) => {
            assert_eq!(config.width, 1280);
            assert_eq!(config.height, 720);
        },
        other => panic!("unexpected command {:?}", other),
    }
    assert_eq!(state.setup().size, Extent::new(1280, 720));
    assert_eq!(state.phase(), Phase::Resizing { after_loss: false });
}

#[test]
fn window_resize_to_nothing_is_ignored() {
    let mut state = shell();
    let before = state.setup();
    let event = WindowEvent::Resized(PhysicalSize::new(0, 0));
    assert_eq!(dispatch(&mut state, &event, false), Command::Wait);
    assert_eq!(state.setup(), before);
    let event = WindowEvent::Resized(PhysicalSize::new(0, 720));
    assert_eq!(dispatch(&mut state, &event, false), Command::Wait);
    assert_eq!(state.setup(), before);
}

#[test]
fn window_redraw_request_opens_a_frame() {
    let mut state = shell();
    assert_eq!(dispatch(&mut state, &WindowEvent::RedrawRequested, false), Command::AcquireFrame);
    assert_eq!(state.time_package().past_fps().len(), 1);
}

#[test]
fn window_events_of_no_interest_change_nothing() {
    let mut state = shell();
    assert_eq!(dispatch(&mut state, &WindowEvent::Focused(true), false), Command::Wait);
    assert_eq!(dispatch(&mut state, &WindowEvent::Destroyed, false), Command::Wait);
    assert_eq!(state.phase(), Phase::Ready);
    assert_eq!(state.setup().size, Extent::new(800, 600));
}

#[test]
fn consumed_window_event_is_not_interpreted() {
    let mut state = shell();
    assert_eq!(dispatch(&mut state, &WindowEvent::CloseRequested, true), Command::Wait);
    assert_eq!(state.phase(), Phase::Ready);
    let event = WindowEvent::Resized(PhysicalSize::new(1280, 720));
    assert_eq!(dispatch(&mut state, &event, true), Command::Wait);
    assert_eq!(state.setup().size, Extent::new(800, 600));
    assert_eq!(dispatch(&mut state, &WindowEvent::RedrawRequested, true), Command::Wait);
    assert_eq!(state.time_package().past_fps().len(), 0);
}

fn acquiring() -> GlobalState {
    let mut state = shell();
    assert_eq!(state.handle(Signal::Host(HostEvent::RedrawRequested), 1), Command::AcquireFrame);
    state
}

#[test]
fn lost_surface_error_has_the_surface_configured_again() {
    let mut state = acquiring();
    let config = state.setup().config;
    assert_eq!(
        acquisition_failed(&mut state, &wgpu::SurfaceError::Lost),
        Command::ConfigureSurface(config)
    );
    assert_eq!(state.phase(), Phase::Resizing { after_loss: true });
}

#[test]
fn outdated_surface_error_has_the_surface_configured_again() {
    let mut state = acquiring();
    let config = state.setup().config;
    assert_eq!(
        acquisition_failed(&mut state, &wgpu::SurfaceError::Outdated),
        Command::ConfigureSurface(config)
    );
    assert_eq!(state.phase(), Phase::Resizing { after_loss: true });
}

#[test]
fn timeout_surface_error_skips_the_frame() {
    let mut state = acquiring();
    assert_eq!(
        acquisition_failed(&mut state, &wgpu::SurfaceError::Timeout),
        Command::RequestRedraw
    );
    assert_eq!(state.phase(), Phase::Ready);
}

#[test]
fn out_of_memory_surface_error_ends_the_run() {
    let mut state = acquiring();
    assert_eq!(acquisition_failed(&mut state, &wgpu::SurfaceError::OutOfMemory), Command::Exit);
    assert_eq!(state.phase(), Phase::Terminated);
}

#[test]
fn surface_error_outside_acquisition_means_nothing() {
    let mut state = shell();
    assert_eq!(acquisition_failed(&mut state, &wgpu::SurfaceError::OutOfMemory), Command::Wait);
    assert_eq!(state.phase(), Phase::Ready);
}

#[test]
fn window_redraw_request_at_a_given_time_counts_a_frame_then() {
    let mut state = shell();
    assert_eq!(
        dispatch_at(&mut state, &WindowEvent::RedrawRequested, false, 4_000_000),
        Command::AcquireFrame
    );
    assert_eq!(state.time_package().elapsed(), 4_000_000);
    assert_eq!(state.time_package().fps(), 250_000);
}

#[test]
fn window_events_at_a_given_time_are_told_apart() {
    let mut state = shell();
    let event = WindowEvent::Resized(PhysicalSize::new(0, 9));
    assert_eq!(dispatch_at(&mut state, &event, false, 1), Command::Wait);
    assert_eq!(dispatch_at(&mut state, &WindowEvent::Focused(false), false, 2), Command::Wait);
    assert_eq!(state.phase(), Phase::Ready);
    let event = WindowEvent::Resized(PhysicalSize::new(64, 48));
    assert!(matches!(
        dispatch_at(&mut state, &event, false, 3),
        Command::ConfigureSurface(config) if config.width == 64 && config.height == 48
    ));
    assert_eq!(dispatch_at(&mut state, &WindowEvent::CloseRequested, false, 4), Command::Exit);
    assert_eq!(state.phase(), Phase::Terminated);
}

#[test]
fn consumed_window_event_at_a_given_time_is_not_interpreted() {
    let mut state = shell();
    assert_eq!(dispatch_at(&mut state, &WindowEvent::CloseRequested, true, 7), Command::Wait);
    assert_eq!(dispatch_at(&mut state, &WindowEvent::RedrawRequested, true, 8), Command::Wait);
    assert_eq!(state.phase(), Phase::Ready);
    assert_eq!(state.time_package().elapsed(), 0);
}
