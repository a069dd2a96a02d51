//! What the host's window system tells the shell, and how a window event
//! and a failed frame acquisition are answered.

use vstd::prelude::*;
use winit::event::ElementState;
use winit::event::KeyEvent;
use winit::event::WindowEvent;
use winit::keyboard::KeyCode;
use winit::keyboard::PhysicalKey;
use crate::global_state::Command;
use crate::global_state::GlobalState;
use crate::global_state::Signal;
use crate::inbuilt::setup::AcquireError;
use crate::utility::structs::Extent;

verus! {

/// A notification of the host's window system, as far as the shell reacts
/// to it.
#[derive(Clone, Copy, Debug, PartialEq, Eq, Structural)]
pub enum HostEvent {
    /// The user asked to close the window.
    CloseRequested,
    /// The Escape key went down.
    EscapePressed,
    /// The window has a new size.
    Resized(Extent),
    /// The window wants to be drawn.
    RedrawRequested,
    /// Anything else.
    Other,
}

/// A window event of winit. Verus sees nothing inside it.
#[verifier::external_type_specification]
#[verifier::external_body]
pub struct ExWindowEvent(WindowEvent);

/// The host event that a window event of winit stands for.
pub uninterp spec fn host_event_of(event: WindowEvent) -> HostEvent;

/// Tells the variants of winit's `WindowEvent` apart: a close request, a
/// press of the physical Escape key, a resize with its size, a redraw
/// request, and everything else. The result depends on the event alone and
/// goes by the name `host_event_of`; nothing more is claimed of it.
#[verifier::external_body]
fn host_event(event: &WindowEvent) -> (r: HostEvent)
    ensures
        r == host_event_of(*event),
{
    match event {
        WindowEvent::CloseRequested => HostEvent::CloseRequested,
        WindowEvent::KeyboardInput {
            event: KeyEvent { state: ElementState::Pressed, physical_key: PhysicalKey::Code(KeyCode::Escape), .. },
            ..
        } => HostEvent::EscapePressed,
        WindowEvent::Resized(s) => HostEvent::Resized(Extent { width: s.width, height: s.height }),
        WindowEvent::RedrawRequested => HostEvent::RedrawRequested,
        _ => HostEvent::Other,
    }
}

/// Answers one window event at the time `now`, in nanoseconds since the
/// start. An event that the GUI has consumed is not the shell's to
/// interpret: it changes nothing and asks nothing of the driver. Any other
/// event is answered as `GlobalState::handle` answers the host event that
/// it stands for. A handle has to be free only where a redraw would
/// rebuild the texture.
pub fn dispatch_at(
    state: &mut GlobalState,
    event: &WindowEvent,
    consumed: bool,
    now: u64,
) -> (command: Command)
    requires
        old(state)@.wf(),
        !consumed && old(state)@.rebuild_pending() ==> old(state)@.registry.has_free_handle(),
    ensures
        final(state)@.wf(),
        (final(state)@, command) == if consumed {
            (old(state)@, Command::Wait)
        } else {
            old(state)@.step(Signal::Host(host_event_of(*event)), now)
        },
{
    if consumed {
        Command::Wait
    } else {
        let host = host_event(event);
        state.handle(Signal::Host(host), now)
    }
}

/// Answers one window event as `dispatch_at` does, at the time that the
/// tracker's clock reads, whatever that reading is. Where the tracker has
/// no clock, that is the time of the most recent frame.
pub fn dispatch(state: &mut GlobalState, event: &WindowEvent, consumed: bool) -> (command: Command)
    requires
        old(state)@.wf(),
        !consumed && old(state)@.rebuild_pending() ==> old(state)@.registry.has_free_handle(),
    ensures
        final(state)@.wf(),
        consumed ==> final(state)@ == old(state)@ && command == Command::Wait,
        !consumed ==> exists|now: u64|
            (final(state)@, command) == old(state)@.step(
                Signal::Host(host_event_of(*event)),
                now,
            ),
        !consumed && old(state)@.time.start_time is None ==> (final(state)@, command)
            == old(state)@.step(Signal::Host(host_event_of(*event)), old(state)@.time.elapsed),
{
    let now = state.now();
    dispatch_at(state, event, consumed, now)
}

/// A surface error of wgpu. Verus sees nothing inside it.
#[verifier::external_type_specification]
#[verifier::external_body]
pub struct ExSurfaceError(wgpu::SurfaceError);

/// The kind of failure that a surface error of wgpu stands for.
pub uninterp spec fn acquire_error_of(error: wgpu::SurfaceError) -> AcquireError;

/// Tells the variants of wgpu's `SurfaceError` apart: a timeout, an outdated
/// surface, a lost surface, and no memory. The result depends on the error
/// alone and goes by the name `acquire_error_of`; nothing more is claimed
/// of it.
#[verifier::external_body]
fn surface_error(error: &wgpu::SurfaceError) -> (r: AcquireError)
    ensures
        r == acquire_error_of(*error),
{
    match error {
        wgpu::SurfaceError::Timeout => AcquireError::Timeout,
        wgpu::SurfaceError::Outdated => AcquireError::Outdated,
        wgpu::SurfaceError::Lost => AcquireError::Lost,
        wgpu::SurfaceError::OutOfMemory => AcquireError::OutOfMemory,
    }
}

/// Answers a failed acquisition of the frame image, as
/// `GlobalState::handle` answers the kind of failure that the error stands
/// for.
pub fn acquisition_failed(state: &mut GlobalState, error: &wgpu::SurfaceError) -> (command:
    Command)
    requires
        old(state)@.wf(),
    ensures
        final(state)@.wf(),
        (final(state)@, command) == old(state)@.step(
            Signal::AcquireFailed(acquire_error_of(*error)),
            0,
        ),
{
    let kind = surface_error(error);
    state.handle(Signal::AcquireFailed(kind), 0)
}

} // verus!
