//! What holds of every step of the orchestrator.

use vstd::prelude::*;
use crate::global_state::Command;
use crate::global_state::FrameStage;
use crate::global_state::Phase;
use crate::global_state::ShellView;
use crate::global_state::Signal;
use crate::inbuilt::event_loop::HostEvent;
use crate::inbuilt::gui_state::TextureId;
use crate::inbuilt::setup::Recovery;
use crate::inbuilt::setup::Setup;
use crate::inbuilt::setup::SurfaceConfiguration;
use crate::inbuilt::setup::AcquireError;
use crate::ui::ui_state::UiFeedback;
use crate::utility::structs::EguiTexturePackage;
use crate::utility::structs::Extent;

verus! {

/// A step from a well-formed state ends in a well-formed state, given a
/// free handle where the step takes one.
pub proof fn lemma_step_keeps_wf(state: ShellView, signal: Signal, now: u64)
    requires
        state.wf(),
        state.takes_handle(signal) ==> state.registry.has_free_handle(),
    ensures
        state.step(signal, now).0.wf(),
{
}

/// No step brings anything back: a handle that has been handed out and is
/// no longer registered stays unregistered, the next handle never falls
/// behind, elapsed time never decreases, and the history never outgrows
/// its capacity, which stays as it was.
pub proof fn lemma_step_never_goes_back(
    state: ShellView,
    signal: Signal,
    now: u64,
    retired: TextureId,
)
    requires
        state.wf(),
        state.takes_handle(signal) ==> state.registry.has_free_handle(),
        retired < state.registry.next_id,
        !state.registry.textures.contains_key(retired),
    ensures
        ({
            let after = state.step(signal, now).0;
            &&& !after.registry.textures.contains_key(retired)
            &&& after.registry.next_id >= state.registry.next_id
            &&& after.time.elapsed >= state.time.elapsed
            &&& after.time.capacity == state.time.capacity
            &&& after.time.past_fps.len() <= after.time.capacity
        }),
{
}

/// A resize request with a zero width or a zero height changes nothing, in
/// whatever state it arrives: the stored configuration, the stored size and
/// everything else stay as they are.
pub proof fn lemma_degenerate_resize_changes_nothing(state: ShellView, new_size: Extent, now: u64)
    requires
        new_size.is_degenerate(),
    ensures
        state.step(Signal::Host(HostEvent::Resized(new_size)), now).0 == state,
        state.setup.resized(new_size) == state.setup,
{
}

/// A resize request for a size that covers a pixel, taken up by a ready
/// orchestrator, stores exactly that size in the configuration and has the
/// driver configure the surface with it, while format, present mode, alpha
/// mode and frame latency stay. Once the driver has done so the orchestrator
/// is ready again, and the next redraw request opens a frame that goes on to
/// acquire the frame image, with no further resize in between.
pub proof fn lemma_resize_then_frame(state: ShellView, new_size: Extent, now: u64)
    requires
        state.wf(),
        state.package.needs_rebuild() ==> state.registry.has_free_handle(),
        state.phase == Phase::Ready,
        !new_size.is_degenerate(),
    ensures
        ({
            let (resizing, configure) = state.step(Signal::Host(HostEvent::Resized(new_size)), now);
            let (ready, idle) = resizing.step(Signal::Done, now);
            let (frame, first) = ready.step(Signal::Host(HostEvent::RedrawRequested), now);
            &&& resizing.phase == Phase::Resizing { after_loss: false }
            &&& resizing.setup.size == new_size
            &&& resizing.setup.config == (SurfaceConfiguration {
                width: new_size.width,
                height: new_size.height,
                ..state.setup.config
            })
            &&& configure == Command::ConfigureSurface(resizing.setup.config)
            &&& ready.phase == Phase::Ready
            &&& ready.setup.surface_configured
            &&& ready.setup.config == resizing.setup.config
            &&& ready.setup.size == new_size
            &&& idle == Command::Wait
            &&& frame.setup == ready.setup
            &&& first == Command::AcquireFrame || (first is RebuildTexture && frame.step(
                Signal::Done,
                now,
            ).1 == Command::AcquireFrame)
        }),
{
}

/// Whatever a step commands is in order when it is commanded.
///
/// - A pass is recorded only into the offscreen texture's current handle,
///   which is registered, and only while the texture has the size that was
///   asked for.
/// - The GUI embeds only that handle, at the texture's size, under the same
///   conditions.
/// - A texture is rebuilt under a handle that differs from the one it
///   retires; the retired handle is no longer registered, and the new one
///   is registered for the size asked for, at least 1x1. The new texture
///   has the format that the pipeline draws in.
/// - A frame image is acquired only from a configured surface.
/// - A surface is configured only with the stored configuration, whose
///   size covers a pixel.
pub proof fn lemma_commands_are_in_order(state: ShellView, signal: Signal, now: u64)
    requires
        state.wf(),
        state.takes_handle(signal) ==> state.registry.has_free_handle(),
    ensures
        ({
            let (after, command) = state.step(signal, now);
            match command {
                Command::RecordPass(pass) => {
                    &&& pass == after.pipeline.pass_into(after.package.texture_id)
                    &&& after.registry.textures.contains_key(pass.target)
                    &&& after.registry.textures[pass.target] == after.package.size
                    &&& !after.package.needs_rebuild()
                },
                Command::ComposeGui(gui) => {
                    &&& gui == after.gui_pass()
                    &&& gui.image.id == after.package.texture_id
                    &&& gui.image.size == after.package.size
                    &&& after.registry.textures.contains_key(gui.image.id)
                    &&& !after.package.needs_rebuild()
                },
                Command::RebuildTexture(build) => {
                    &&& build.retired == state.package.texture_id
                    &&& build.retired != build.texture_id
                    &&& !after.registry.textures.contains_key(build.retired)
                    &&& build.texture_id == after.package.texture_id
                    &&& build.descriptor == EguiTexturePackage::descriptor_of(
                        state.package.size.clamped(),
                    )
                    &&& build.descriptor == EguiTexturePackage::descriptor_of(
                        after.package.texture_size,
                    )
                    &&& build.descriptor.format == after.pipeline.state.target_format
                    &&& after.registry.textures.contains_key(build.texture_id)
                    &&& after.registry.textures[build.texture_id] == build.descriptor.size
                },
                Command::AcquireFrame => after.setup.surface_configured,
                Command::ConfigureSurface(config) => {
                    &&& config == after.setup.config
                    &&& config.width > 0
                    &&& config.height > 0
                },
                _ => true,
            }
        }),
{
}

/// An undisturbed frame on a configured surface runs its steps in one
/// order: the offscreen texture is rebuilt where its size is not the size
/// asked for, then the frame image is acquired, the pass is recorded, the
/// GUI is composed, the batch is submitted, the image is presented, and the
/// next redraw is asked for. The orchestrator ends ready. The registry and
/// the offscreen texture end as the reconciliation left them, but for the
/// size the GUI asked for; where nothing had to be rebuilt the texture and
/// its handle are the ones the frame started with.
pub proof fn lemma_frame_runs_in_order(state: ShellView, feedback: UiFeedback, now: u64)
    requires
        state.wf(),
        state.package.needs_rebuild() ==> state.registry.has_free_handle(),
        state.phase == Phase::Ready,
        state.setup.surface_configured,
    ensures
        ({
            let (opened, first) = state.step(Signal::Host(HostEvent::RedrawRequested), now);
            let (acquiring, acquire) = if state.package.needs_rebuild() {
                opened.step(Signal::Done, now)
            } else {
                (opened, first)
            };
            let (recording, record) = acquiring.step(Signal::Done, now);
            let (composing, compose) = recording.step(Signal::Done, now);
            let (submitting, submit) = composing.step(Signal::GuiDone(feedback), now);
            let (presenting, present) = submitting.step(Signal::Done, now);
            let (finished, last) = presenting.step(Signal::Done, now);
            let reconciled = state.package.reconciled(state.registry);
            &&& state.package.needs_rebuild() <==> first is RebuildTexture
            &&& acquire == Command::AcquireFrame
            &&& record == Command::RecordPass(state.pipeline.pass_into(reconciled.0.texture_id))
            &&& compose == Command::ComposeGui(composing.gui_pass())
            &&& submit == Command::Submit
            &&& present == Command::Present
            &&& last == Command::RequestRedraw
            &&& finished == (ShellView {
                package: EguiTexturePackage { size: feedback.image_space, ..reconciled.0 },
                registry: reconciled.1,
                time: state.time.advanced(now),
                ui: state.ui.updated(feedback),
                ..state
            })
            &&& !state.package.needs_rebuild() ==> {
                &&& finished.package.texture_id == state.package.texture_id
                &&& finished.package.texture_size == state.package.texture_size
                &&& finished.registry == state.registry
            }
        }),
{
}

/// A size that the GUI asks for is met when the next frame opens. While the
/// GUI is being composed its feedback changes only the size asked for: the
/// texture and its handle stay. The next redraw request then finds the
/// texture either at that size already, and goes on to acquire the frame
/// image, or has it rebuilt at that size, at least 1x1, under a handle that
/// differs from the old one, which is no longer registered.
pub proof fn lemma_gui_request_is_met(state: ShellView, feedback: UiFeedback, now: u64)
    requires
        state.wf(),
        feedback.image_space != state.package.texture_size ==> state.registry.has_free_handle(),
        state.phase == Phase::Rendering(FrameStage::Compose),
    ensures
        ({
            let (submitting, _submit) = state.step(Signal::GuiDone(feedback), now);
            let (presenting, _present) = submitting.step(Signal::Done, now);
            let (ready, _again) = presenting.step(Signal::Done, now);
            let (opened, first) = ready.step(Signal::Host(HostEvent::RedrawRequested), now);
            &&& ready.phase == Phase::Ready
            &&& ready.package == (EguiTexturePackage { size: feedback.image_space, ..state.package })
            &&& ready.registry == state.registry
            &&& opened.package.texture_size == feedback.image_space.clamped()
            &&& opened.package.size == feedback.image_space.clamped()
            &&& opened.package.wf(opened.registry)
            &&& if feedback.image_space == state.package.texture_size {
                &&& first == Command::AcquireFrame
                &&& opened.package == state.package
                &&& opened.registry == state.registry
            } else {
                &&& first is RebuildTexture
                &&& opened.package.texture_id != state.package.texture_id
                &&& !opened.registry.textures.contains_key(state.package.texture_id)
            }
        }),
{
}

/// When the frame image cannot be acquired because the surface is lost or
/// outdated, the orchestrator resizes to the last known size: the stored
/// configuration stays as it is, and the driver is told to configure the
/// surface with it. Once that is done the orchestrator is ready, asks for
/// the next redraw, and opens the next frame without any further resize.
pub proof fn lemma_lost_surface_is_reconfigured(state: ShellView, error: AcquireError, now: u64)
    requires
        state.wf(),
        state.phase == Phase::Rendering(FrameStage::Acquire),
        error.recovery() == Recovery::Reconfigure,
    ensures
        error == AcquireError::Lost || error == AcquireError::Outdated,
        ({
            let (resizing, configure) = state.step(Signal::AcquireFailed(error), now);
            let (ready, again) = resizing.step(Signal::Done, now);
            let (frame, first) = ready.step(Signal::Host(HostEvent::RedrawRequested), now);
            &&& configure == Command::ConfigureSurface(state.setup.config)
            &&& resizing == (ShellView {
                phase: Phase::Resizing { after_loss: true },
                setup: Setup { surface_configured: false, ..state.setup },
                ..state
            })
            &&& resizing == (ShellView { phase: Phase::Lost, ..state }).begin_resize(
                state.setup.size,
                true,
            ).0
            &&& again == Command::RequestRedraw
            &&& ready == (ShellView { phase: Phase::Ready, ..state })
            &&& first == Command::AcquireFrame
            &&& frame.phase == Phase::Rendering(FrameStage::Acquire)
        }),
{
}

/// A timeout while the frame image is acquired drops the frame and changes
/// nothing but the phase: the orchestrator is ready and asks for the next
/// redraw.
pub proof fn lemma_timeout_skips_frame(state: ShellView, now: u64)
    requires
        state.phase == Phase::Rendering(FrameStage::Acquire),
    ensures
        state.step(Signal::AcquireFailed(AcquireError::Timeout), now) == (
            ShellView { phase: Phase::Ready, ..state },
            Command::RequestRedraw,
        ),
{
}

/// Running out of memory while the frame image is acquired, a close
/// request, and a press of Escape each end the run; and once the run has
/// ended every signal is answered with `Exit` and changes nothing.
pub proof fn lemma_run_ends_for_good(state: ShellView, signal: Signal, now: u64)
    ensures
        state.phase == Phase::Rendering(FrameStage::Acquire) ==> state.step(
            Signal::AcquireFailed(AcquireError::OutOfMemory),
            now,
        ) == (ShellView { phase: Phase::Terminated, ..state }, Command::Exit),
        state.step(Signal::Host(HostEvent::CloseRequested), now) == (
            ShellView { phase: Phase::Terminated, ..state },
            Command::Exit,
        ),
        state.step(Signal::Host(HostEvent::EscapePressed), now) == (
            ShellView { phase: Phase::Terminated, ..state },
            Command::Exit,
        ),
        state.phase == Phase::Terminated ==> state.step(signal, now) == (state, Command::Exit),
{
}

} // verus!
