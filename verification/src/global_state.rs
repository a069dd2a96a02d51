//! The frame orchestrator: it owns the surface context, the GUI renderer's
//! registry, the fixed pipeline, the offscreen texture and the time tracker,
//! and decides what the driver does next.
//!
//! The orchestrator never touches the window or the device. It is handed a
//! signal (a host event, or the outcome of the command it gave last) and
//! answers with the next command. The driver carries each command out and
//! reports back before it hands over anything else.

pub mod laws;

use vstd::prelude::*;
use std::time::Instant;
use crate::inbuilt::event_loop::HostEvent;
use crate::global_state::laws::lemma_step_keeps_wf;
use crate::inbuilt::gui_state::EguiRenderer;
use crate::inbuilt::gui_state::RegistryView;
use crate::inbuilt::gui_state::TextureId;
use crate::inbuilt::setup::PlatformProfile;
use crate::inbuilt::setup::Recovery;
use crate::inbuilt::setup::Setup;
use crate::inbuilt::setup::SetupError;
use crate::inbuilt::setup::SurfaceCapabilities;
use crate::inbuilt::setup::SurfaceConfiguration;
use crate::inbuilt::setup::AcquireError;
use crate::inbuilt::vertex_package::VertexPackage;
use crate::packages::test_render_pipeline::RenderPass;
use crate::packages::test_render_pipeline::TestRenderPipeline;
use crate::packages::time_package::lemma_one_frame;
use crate::packages::time_package::TimePackage;
use crate::packages::time_package::TimeView;
use crate::ui::ui_state::ScreenDescriptor;
use crate::ui::ui_state::SizedTexture;
use crate::ui::ui_state::Theme;
use crate::ui::ui_state::UiFeedback;
use crate::ui::ui_state::UiState;
use crate::utility::structs::EguiTexturePackage;
use crate::utility::structs::Extent;
use crate::utility::structs::TextureDescriptor;

verus! {

/// The step of a frame that the driver has been asked to carry out.
#[derive(Clone, Copy, Debug, PartialEq, Eq, Structural)]
pub enum FrameStage {
    /// Building the offscreen texture anew.
    Rebuild,
    /// Acquiring the presentable frame image.
    Acquire,
    /// Recording the fixed pipeline's pass into the offscreen texture.
    Record,
    /// Composing the GUI onto the frame image.
    Compose,
    /// Submitting the recorded commands as one batch.
    Submit,
    /// Presenting the frame image.
    Present,
}

/// Where the orchestrator stands.
#[derive(Clone, Copy, Debug, PartialEq, Eq, Structural)]
pub enum Phase {
    /// Nothing has been built yet. `GlobalState::new` leaves this phase, so
    /// no orchestrator is ever found in it.
    Uninitialized,
    /// Waiting for the next host event.
    Ready,
    /// The surface is being configured for a new size. `after_loss` tells
    /// whether a frame was given up for it.
    Resizing { after_loss: bool },
    /// A frame is under way.
    Rendering(FrameStage),
    /// The surface could not hand out a frame image and has to be
    /// configured again. The orchestrator passes through this phase within
    /// one step and is never found in it.
    Lost,
    /// The run loop has been told to stop.
    Terminated,
}

/// What the orchestrator is told.
#[derive(Clone, Copy, Debug, PartialEq, Eq, Structural)]
pub enum Signal {
    /// The host's window system reported an event.
    Host(HostEvent),
    /// The last command has been carried out.
    Done,
    /// The frame image could not be acquired.
    AcquireFailed(AcquireError),
    /// The GUI has been composed, and this is what it reported.
    GuiDone(UiFeedback),
}

/// What it takes to replace the offscreen texture on the device.
#[derive(Clone, Copy, Debug, PartialEq, Eq, Structural)]
pub struct TextureBuild {
    /// The handle that is no longer valid. Its texture can be destroyed.
    pub retired: TextureId,
    /// The handle of the new texture's view.
    pub texture_id: TextureId,
    /// What the new texture is created with.
    pub descriptor: TextureDescriptor,
}

/// What the GUI is composed with.
#[derive(Clone, Copy, Debug, PartialEq, Eq, Structural)]
pub struct GuiPass {
    pub screen: ScreenDescriptor,
    /// The offscreen texture as the image widget shows it.
    pub image: SizedTexture,
    pub theme: Theme,
    /// The rate of the most recent frame in millihertz.
    pub fps: u64,
    /// Nanoseconds from the start to the most recent frame.
    pub elapsed: u64,
}

/// What the driver is to do next.
#[derive(Clone, Copy, Debug, PartialEq, Eq, Structural)]
pub enum Command {
    /// Nothing, until the next host event.
    Wait,
    /// Leave the run loop.
    Exit,
    /// Configure the surface with this configuration.
    ConfigureSurface(SurfaceConfiguration),
    /// Replace the offscreen texture.
    RebuildTexture(TextureBuild),
    /// Acquire the presentable frame image.
    AcquireFrame,
    /// Record this pass.
    RecordPass(RenderPass),
    /// Compose the GUI onto the frame image.
    ComposeGui(GuiPass),
    /// Submit everything recorded as one batch.
    Submit,
    /// Present the frame image.
    Present,
    /// Ask the host for the next redraw.
    RequestRedraw,
}

/// What the orchestrator is built with, besides the window and the surface.
#[derive(Clone, Copy, Debug, PartialEq, Eq, Structural)]
pub struct ShellOptions {
    pub profile: PlatformProfile,
    /// The geometry that the fixed pipeline draws.
    pub vertex_package: VertexPackage,
    /// The size the offscreen texture starts with.
    pub offscreen_size: Extent,
    /// How many samples the time tracker keeps.
    pub history_capacity: usize,
}

/// The width and the height that an offscreen texture starts with unless
/// the caller knows better.
pub const DEFAULT_OFFSCREEN_EDGE: u32 = 250;

/// What an orchestrator stands for.
#[verifier::ext_equal]
pub struct ShellView {
    pub phase: Phase,
    pub setup: Setup,
    pub registry: RegistryView,
    pub pipeline: TestRenderPipeline,
    pub package: EguiTexturePackage,
    pub time: TimeView,
    pub ui: UiState,
}

impl ShellView {
    /// Every part is well formed, the offscreen texture is registered, the
    /// pipeline draws in the format of offscreen textures, and the phase agrees with
    /// the parts: a frame is under way only on a configured surface, and
    /// from its start until the GUI has been composed the offscreen texture
    /// has the size that was asked for.
    pub open spec fn wf(self) -> bool {
        &&& self.setup.wf()
        &&& self.registry.wf()
        &&& self.package.wf(self.registry)
        &&& self.time.wf()
        &&& self.pipeline.state == TestRenderPipeline::fixed_state(EguiTexturePackage::format())
        &&& match self.phase {
            Phase::Uninitialized | Phase::Lost => false,
            Phase::Ready | Phase::Terminated => true,
            Phase::Resizing { .. } => !self.setup.size.is_degenerate()
                && !self.setup.surface_configured,
            Phase::Rendering(stage) => self.setup.surface_configured && match stage {
                FrameStage::Submit | FrameStage::Present => true,
                _ => !self.package.needs_rebuild(),
            },
        }
    }

    /// The orchestrator that is built around a surface context, with a
    /// time tracker that counts from `start_time`.
    pub open spec fn constructed(
        setup: Setup,
        options: ShellOptions,
        start_time: Option<Instant>,
    ) -> ShellView {
        ShellView {
            phase: Phase::Ready,
            setup,
            registry: RegistryView::empty().registered(options.offscreen_size.clamped()),
            pipeline: TestRenderPipeline {
                vertex_package: options.vertex_package,
                state: TestRenderPipeline::fixed_state(EguiTexturePackage::format()),
            },
            package: EguiTexturePackage::created(RegistryView::empty(), options.offscreen_size),
            time: TimeView::initial(start_time, options.history_capacity as nat),
            ui: UiState { theme: Theme::Frappe },
        }
    }

    /// What the GUI is composed with in this state.
    pub open spec fn gui_pass(self) -> GuiPass {
        GuiPass {
            screen: UiState::screen_of(self.setup),
            image: UiState::image_of(self.package),
            theme: self.ui.theme,
            fps: self.time.fps,
            elapsed: self.time.elapsed,
        }
    }

    /// The state after the two updates that open a frame: the offscreen
    /// texture is reconciled with the size asked for, and the time tracker
    /// counts a frame at `now`.
    pub open spec fn updated(self, now: u64) -> ShellView {
        ShellView {
            package: self.package.reconciled(self.registry).0,
            registry: self.package.reconciled(self.registry).1,
            time: self.time.advanced(now),
            ..self
        }
    }

    /// What the driver needs to replace the offscreen texture when a frame
    /// opens in this state, if the texture has to be replaced.
    pub open spec fn pending_build(self) -> Option<TextureBuild> {
        if self.package.needs_rebuild() {
            Some(
                TextureBuild {
                    retired: self.package.texture_id,
                    texture_id: self.registry.next_id,
                    descriptor: EguiTexturePackage::descriptor_of(self.package.size.clamped()),
                },
            )
        } else {
            None
        }
    }

    /// Whether a redraw request would have the offscreen texture rebuilt:
    /// the orchestrator is ready, its surface is configured, and the
    /// texture's size is not the size asked for.
    pub open spec fn rebuild_pending(self) -> bool {
        &&& self.phase == Phase::Ready
        &&& self.setup.surface_configured
        &&& self.package.needs_rebuild()
    }

    /// Whether a step for this signal takes a handle from the registry,
    /// which only a redraw request with a rebuild pending does.
    pub open spec fn takes_handle(self, signal: Signal) -> bool {
        signal == Signal::Host(HostEvent::RedrawRequested) && self.rebuild_pending()
    }

    /// A resize request is taken up. A degenerate size is ignored and the
    /// orchestrator is ready again. Any other size becomes the stored size
    /// and the configuration's size, and the driver is told to configure
    /// the surface. `after_loss` tells whether a frame was given up, in
    /// which case the host is asked for the next redraw once the matter is
    /// settled.
    pub open spec fn begin_resize(self, new_size: Extent, after_loss: bool) -> (
        ShellView,
        Command,
    ) {
        if new_size.is_degenerate() {
            (
                ShellView { phase: Phase::Ready, ..self },
                if after_loss {
                    Command::RequestRedraw
                } else {
                    Command::Wait
                },
            )
        } else {
            (
                ShellView {
                    phase: Phase::Resizing { after_loss },
                    setup: self.setup.resized(new_size),
                    ..self
                },
                Command::ConfigureSurface(self.setup.resized(new_size).config),
            )
        }
    }

    /// A redraw request is taken up. Without a configured surface the frame
    /// is skipped and the next redraw is asked for. Otherwise the frame
    /// opens: the offscreen texture is reconciled and the time tracker
    /// advanced, and the driver is told to replace the texture where it has
    /// to be replaced, and to acquire the frame image where it has not.
    pub open spec fn redraw(self, now: u64) -> (ShellView, Command) {
        if !self.setup.surface_configured {
            (self, Command::RequestRedraw)
        } else {
            match self.pending_build() {
                Some(build) => (
                    ShellView { phase: Phase::Rendering(FrameStage::Rebuild), ..self.updated(now) },
                    Command::RebuildTexture(build),
                ),
                None => (
                    ShellView { phase: Phase::Rendering(FrameStage::Acquire), ..self.updated(now) },
                    Command::AcquireFrame,
                ),
            }
        }
    }

    /// The driver has carried out the last command. A configured surface
    /// makes the orchestrator ready again. Within a frame the next step
    /// follows: acquire after rebuild, record after acquire, compose after
    /// record, present after submit, and after present the orchestrator is
    /// ready and asks for the next redraw. While the GUI is being composed
    /// only its feedback moves the frame on.
    pub open spec fn done(self) -> (ShellView, Command) {
        match self.phase {
            Phase::Resizing { after_loss } => (
                ShellView { phase: Phase::Ready, setup: self.setup.reconfigured(), ..self },
                if after_loss {
                    Command::RequestRedraw
                } else {
                    Command::Wait
                },
            ),
            Phase::Rendering(FrameStage::Rebuild) => (
                ShellView { phase: Phase::Rendering(FrameStage::Acquire), ..self },
                Command::AcquireFrame,
            ),
            Phase::Rendering(FrameStage::Acquire) => (
                ShellView { phase: Phase::Rendering(FrameStage::Record), ..self },
                Command::RecordPass(self.pipeline.pass_into(self.package.texture_id)),
            ),
            Phase::Rendering(FrameStage::Record) => (
                ShellView { phase: Phase::Rendering(FrameStage::Compose), ..self },
                Command::ComposeGui(self.gui_pass()),
            ),
            Phase::Rendering(FrameStage::Submit) => (
                ShellView { phase: Phase::Rendering(FrameStage::Present), ..self },
                Command::Present,
            ),
            Phase::Rendering(FrameStage::Present) => (
                ShellView { phase: Phase::Ready, ..self },
                Command::RequestRedraw,
            ),
            _ => (self, Command::Wait),
        }
    }

    /// The frame image could not be acquired. A lost or outdated surface
    /// makes the orchestrator lose the frame and resize to the last known
    /// size, which has the surface configured again. A timeout drops the
    /// frame and changes nothing else. Without memory the run ends. Outside
    /// the acquisition of a frame image the signal means nothing.
    pub open spec fn acquire_failed(self, error: AcquireError) -> (ShellView, Command) {
        if self.phase == Phase::Rendering(FrameStage::Acquire) {
            match error.recovery() {
                Recovery::Reconfigure => (ShellView { phase: Phase::Lost, ..self }).begin_resize(
                    self.setup.size,
                    true,
                ),
                Recovery::SkipFrame => (
                    ShellView { phase: Phase::Ready, ..self },
                    Command::RequestRedraw,
                ),
                Recovery::Terminate => (
                    ShellView { phase: Phase::Terminated, ..self },
                    Command::Exit,
                ),
            }
        } else {
            (self, Command::Wait)
        }
    }

    /// The GUI has been composed. Its feedback is taken over: a picked theme
    /// becomes the theme, and the space of the image panel becomes the size
    /// asked of the offscreen texture, to be met when the next frame opens.
    /// The frame goes on to submission. Outside the composition of the GUI
    /// the signal means nothing.
    pub open spec fn gui_done(self, feedback: UiFeedback) -> (ShellView, Command) {
        if self.phase == Phase::Rendering(FrameStage::Compose) {
            (
                ShellView {
                    phase: Phase::Rendering(FrameStage::Submit),
                    ui: self.ui.updated(feedback),
                    package: EguiTexturePackage { size: feedback.image_space, ..self.package },
                    ..self
                },
                Command::Submit,
            )
        } else {
            (self, Command::Wait)
        }
    }

    /// A host event is taken up. A close request or a press of Escape ends
    /// the run in any phase. A resize or a redraw request is taken up when
    /// the orchestrator is ready, and means nothing while it is busy.
    pub open spec fn host(self, event: HostEvent, now: u64) -> (ShellView, Command) {
        match event {
            HostEvent::CloseRequested | HostEvent::EscapePressed => (
                ShellView { phase: Phase::Terminated, ..self },
                Command::Exit,
            ),
            HostEvent::Resized(new_size) => if self.phase == Phase::Ready {
                self.begin_resize(new_size, false)
            } else {
                (self, Command::Wait)
            },
            HostEvent::RedrawRequested => if self.phase == Phase::Ready {
                self.redraw(now)
            } else {
                (self, Command::Wait)
            },
            HostEvent::Other => (self, Command::Wait),
        }
    }

    /// One step of the orchestrator: the state and the command that follow
    /// a signal. Once the run has ended, every signal is answered with
    /// `Exit` and changes nothing. `now` is the clock's reading in
    /// nanoseconds since the start; it is used where a frame opens.
    pub open spec fn step(self, signal: Signal, now: u64) -> (ShellView, Command) {
        if self.phase == Phase::Terminated {
            (self, Command::Exit)
        } else {
            match signal {
                Signal::Host(event) => self.host(event, now),
                Signal::Done => self.done(),
                Signal::AcquireFailed(error) => self.acquire_failed(error),
                Signal::GuiDone(feedback) => self.gui_done(feedback),
            }
        }
    }
}

/// The orchestrator.
pub struct GlobalState {
    phase: Phase,
    setup: Setup,
    egui_renderer: EguiRenderer,
    test_render_pipeline: TestRenderPipeline,
    egui_texture_package: EguiTexturePackage,
    time_package: TimePackage,
    ui_state: UiState,
}

impl View for GlobalState {
    type V = ShellView;

    closed spec fn view(&self) -> ShellView {
        ShellView {
            phase: self.phase,
            setup: self.setup,
            registry: self.egui_renderer@,
            pipeline: self.test_render_pipeline,
            package: self.egui_texture_package,
            time: self.time_package@,
            ui: self.ui_state,
        }
    }
}

impl GlobalState {
    /// Builds the orchestrator: the surface context first, then the GUI
    /// renderer's registry, the fixed pipeline with its geometry, the
    /// offscreen texture, which is registered with the GUI renderer, and
    /// the time tracker. On the desktop the tracker counts from the moment
    /// it is made; in a browser, where the standard library has no clock,
    /// it is made without one. Fails where the surface context cannot be
    /// set up.
    /// The driver configures the surface with the context's configuration
    /// unless the window's size is degenerate.
    pub fn new(window_size: Extent, caps: &SurfaceCapabilities, options: ShellOptions) -> (r:
        Result<GlobalState, SetupError>)
        ensures
            match Setup::built(
                window_size,
                caps.formats@,
                caps.present_modes@,
                caps.alpha_modes@,
                options.profile,
            ) {
                Ok(setup) => {
                    &&& r is Ok
                    &&& r->Ok_0@ == ShellView::constructed(setup, options, r->Ok_0@.time.start_time)
                    &&& r->Ok_0@.time.start_time is Some <==> options.profile
                        == PlatformProfile::Desktop
                    &&& r->Ok_0@.wf()
                },
                Err(error) => r is Err && r->Err_0 == error,
            },
    {
        let setup = match Setup::new(window_size, caps, options.profile) {
            Ok(setup) => setup,
            Err(error) => { return Err(error); },
        };
        let mut egui_renderer = EguiRenderer::new();
        let test_render_pipeline = TestRenderPipeline::new(
            options.vertex_package,
            EguiTexturePackage::format(),
        );
        let egui_texture_package = EguiTexturePackage::new(
            &mut egui_renderer,
            options.offscreen_size,
        );
        let time_package = match options.profile {
            PlatformProfile::Desktop => TimePackage::new(options.history_capacity),
            PlatformProfile::Browser => TimePackage::without_clock(options.history_capacity),
        };
        let ui_state = UiState::new();
        Ok(
            GlobalState {
                phase: Phase::Ready,
                setup,
                egui_renderer,
                test_render_pipeline,
                egui_texture_package,
                time_package,
                ui_state,
            },
        )
    }

    /// The phase the orchestrator is in.
    pub fn phase(&self) -> (r: Phase)
        ensures
            r == self@.phase,
    {
        self.phase
    }

    /// The surface context.
    pub fn setup(&self) -> (r: Setup)
        ensures
            r == self@.setup,
    {
        self.setup
    }

    /// The GUI renderer's registry.
    pub fn egui_renderer(&self) -> (r: &EguiRenderer)
        ensures
            r@ == self@.registry,
    {
        &self.egui_renderer
    }

    /// The fixed pipeline.
    pub fn test_render_pipeline(&self) -> (r: TestRenderPipeline)
        ensures
            r == self@.pipeline,
    {
        self.test_render_pipeline
    }

    /// The offscreen texture.
    pub fn egui_texture_package(&self) -> (r: EguiTexturePackage)
        ensures
            r == self@.package,
    {
        self.egui_texture_package
    }

    /// The time tracker.
    pub fn time_package(&self) -> (r: &TimePackage)
        ensures
            r@ == self@.time,
    {
        &self.time_package
    }

    /// The GUI's state.
    pub fn ui_state(&self) -> (r: UiState)
        ensures
            r == self@.ui,
    {
        self.ui_state
    }

    /// Whether a redraw request would have the offscreen texture rebuilt.
    pub fn rebuild_pending(&self) -> (r: bool)
        ensures
            r == self@.rebuild_pending(),
    {
        let ready = match self.phase {
            Phase::Ready => true,
            _ => false,
        };
        ready && self.setup.surface_configured && self.egui_texture_package.size
            != self.egui_texture_package.texture_size
    }

    /// Whether the registry has a handle to spare, which a rebuild of the
    /// offscreen texture needs.
    pub fn has_free_handle(&self) -> (r: bool)
        ensures
            r == self@.registry.has_free_handle(),
    {
        self.egui_renderer.has_free_handle()
    }

    /// The reading of the time tracker's clock, in nanoseconds since the
    /// orchestrator was built; without a clock, the time of the most recent
    /// frame.
    pub fn now(&self) -> (r: u64)
        ensures
            self@.time.start_time is None ==> r == self@.time.elapsed,
    {
        self.time_package.now()
    }

    /// The shell itself takes no input from a host event: the answer is
    /// always that the event was not consumed.
    pub fn update_input(&mut self, _event: &HostEvent) -> (consumed: bool)
        ensures
            !consumed,
            final(self)@ == old(self)@,
    {
        false
    }

    /// Opens a frame's state: reconciles the offscreen texture with the
    /// size asked for and counts a frame at `now`. Returns what the driver
    /// needs to replace the texture on the device, if it was replaced.
    pub fn update(&mut self, now: u64) -> (build: Option<TextureBuild>)
        requires
            old(self)@.wf(),
            old(self)@.package.needs_rebuild() ==> old(self)@.registry.has_free_handle(),
        ensures
            final(self)@ == old(self)@.updated(now),
            build == old(self)@.pending_build(),
            final(self)@.wf(),
            final(self)@.time == old(self)@.time.advanced(now),
            final(self)@.time.start_time == old(self)@.time.start_time,
            final(self)@.time.capacity == old(self)@.time.capacity,
            final(self)@.time.elapsed >= old(self)@.time.elapsed,
            final(self)@.time.past_fps.len() == if old(self)@.time.past_fps.len()
                < old(self)@.time.capacity {
                old(self)@.time.past_fps.len() + 1
            } else {
                old(self)@.time.capacity
            },
            !final(self)@.package.needs_rebuild(),
            final(self)@.package.texture_size == old(self)@.package.size.clamped(),
            build is Some ==> final(self)@.package.texture_id != old(self)@.package.texture_id,
            build is None ==> final(self)@.package == old(self)@.package,
    {
        proof {
            lemma_one_frame(old(self)@.time, now);
        }
        let retired = self.egui_texture_package.texture_id;
        let rebuilt = self.egui_texture_package.update(&mut self.egui_renderer);
        self.time_package.advance(now);
        if rebuilt {
            Some(
                TextureBuild {
                    retired,
                    texture_id: self.egui_texture_package.texture_id,
                    descriptor: self.egui_texture_package.descriptor(),
                },
            )
        } else {
            None
        }
    }

    /// What the GUI is composed with.
    pub fn update_gui(&self) -> (r: GuiPass)
        ensures
            r == self@.gui_pass(),
    {
        GuiPass {
            screen: UiState::screen_descriptor(&self.setup),
            image: UiState::image(&self.egui_texture_package),
            theme: self.ui_state.theme,
            fps: self.time_package.fps(),
            elapsed: self.time_package.elapsed(),
        }
    }

    fn begin_resize(&mut self, new_size: Extent, after_loss: bool) -> (command: Command)
        ensures
            (final(self)@, command) == old(self)@.begin_resize(new_size, after_loss),
    {
        if self.setup.resize(new_size) {
            self.phase = Phase::Resizing { after_loss };
            Command::ConfigureSurface(self.setup.config)
        } else {
            self.phase = Phase::Ready;
            if after_loss {
                Command::RequestRedraw
            } else {
                Command::Wait
            }
        }
    }

    fn redraw(&mut self, now: u64) -> (command: Command)
        requires
            old(self)@.wf(),
            old(self)@.setup.surface_configured && old(self)@.package.needs_rebuild()
                ==> old(self)@.registry.has_free_handle(),
        ensures
            (final(self)@, command) == old(self)@.redraw(now),
    {
        if !self.setup.surface_configured {
            Command::RequestRedraw
        } else {
            match self.update(now) {
                Some(build) => {
                    self.phase = Phase::Rendering(FrameStage::Rebuild);
                    Command::RebuildTexture(build)
                },
                None => {
                    self.phase = Phase::Rendering(FrameStage::Acquire);
                    Command::AcquireFrame
                },
            }
        }
    }

    fn done(&mut self) -> (command: Command)
        ensures
            (final(self)@, command) == old(self)@.done(),
    {
        match self.phase {
            Phase::Resizing { after_loss } => {
                self.setup.surface_reconfigured();
                self.phase = Phase::Ready;
                if after_loss {
                    Command::RequestRedraw
                } else {
                    Command::Wait
                }
            },
            Phase::Rendering(FrameStage::Rebuild) => {
                self.phase = Phase::Rendering(FrameStage::Acquire);
                Command::AcquireFrame
            },
            Phase::Rendering(FrameStage::Acquire) => {
                self.phase = Phase::Rendering(FrameStage::Record);
                Command::RecordPass(
                    self.test_render_pipeline.render_pass(self.egui_texture_package.texture_id),
                )
            },
            Phase::Rendering(FrameStage::Record) => {
                self.phase = Phase::Rendering(FrameStage::Compose);
                Command::ComposeGui(self.update_gui())
            },
            Phase::Rendering(FrameStage::Submit) => {
                self.phase = Phase::Rendering(FrameStage::Present);
                Command::Present
            },
            Phase::Rendering(FrameStage::Present) => {
                self.phase = Phase::Ready;
                Command::RequestRedraw
            },
            _ => Command::Wait,
        }
    }

    fn acquire_failed(&mut self, error: AcquireError) -> (command: Command)
        ensures
            (final(self)@, command) == old(self)@.acquire_failed(error),
    {
        match self.phase {
            Phase::Rendering(FrameStage::Acquire) => match error.recovery() {
                Recovery::Reconfigure => {
                    self.phase = Phase::Lost;
                    let size = self.setup.size;
                    self.begin_resize(size, true)
                },
                Recovery::SkipFrame => {
                    self.phase = Phase::Ready;
                    Command::RequestRedraw
                },
                Recovery::Terminate => {
                    self.phase = Phase::Terminated;
                    Command::Exit
                },
            },
            _ => Command::Wait,
        }
    }

    fn gui_done(&mut self, feedback: UiFeedback) -> (command: Command)
        ensures
            (final(self)@, command) == old(self)@.gui_done(feedback),
    {
        match self.phase {
            Phase::Rendering(FrameStage::Compose) => {
                self.ui_state.render_and_update(&mut self.egui_texture_package, feedback);
                self.phase = Phase::Rendering(FrameStage::Submit);
                Command::Submit
            },
            _ => Command::Wait,
        }
    }

    fn host(&mut self, event: HostEvent, now: u64) -> (command: Command)
        requires
            old(self)@.wf(),
            old(self)@.takes_handle(Signal::Host(event)) ==> old(self)@.registry.has_free_handle(),
        ensures
            (final(self)@, command) == old(self)@.host(event, now),
    {
        match event {
            HostEvent::CloseRequested | HostEvent::EscapePressed => {
                self.phase = Phase::Terminated;
                Command::Exit
            },
            HostEvent::Resized(new_size) => match self.phase {
                Phase::Ready => self.begin_resize(new_size, false),
                _ => Command::Wait,
            },
            HostEvent::RedrawRequested => match self.phase {
                Phase::Ready => self.redraw(now),
                _ => Command::Wait,
            },
            HostEvent::Other => Command::Wait,
        }
    }

    /// Takes one signal and answers with the next command. `now` is the
    /// clock's reading in nanoseconds since the start. A handle has to be
    /// free only where the step takes one.
    pub fn handle(&mut self, signal: Signal, now: u64) -> (command: Command)
        requires
            old(self)@.wf(),
            old(self)@.takes_handle(signal) ==> old(self)@.registry.has_free_handle(),
        ensures
            (final(self)@, command) == old(self)@.step(signal, now),
            final(self)@.wf(),
    {
        proof {
            lemma_step_keeps_wf(old(self)@, signal, now);
        }
        match self.phase {
            Phase::Terminated => Command::Exit,
            _ => match signal {
                Signal::Host(event) => self.host(event, now),
                Signal::Done => self.done(),
                Signal::AcquireFailed(error) => self.acquire_failed(error),
                Signal::GuiDone(feedback) => self.gui_done(feedback),
            },
        }
    }

    /// Takes up a resize request, as `handle` does for the host's resize
    /// event. A size without pixels changes nothing, in whatever phase; any
    /// other size, taken up by a ready orchestrator, becomes the stored size
    /// and the configuration's size exactly.
    pub fn resize(&mut self, new_size: Extent) -> (command: Command)
        requires
            old(self)@.wf(),
        ensures
            (final(self)@, command) == old(self)@.step(
                Signal::Host(HostEvent::Resized(new_size)),
                0,
            ),
            final(self)@.wf(),
            new_size.is_degenerate() ==> final(self)@ == old(self)@,
            !new_size.is_degenerate() && old(self)@.phase == Phase::Ready ==> {
                &&& final(self)@.setup.size == new_size
                &&& final(self)@.setup.config.width == new_size.width
                &&& final(self)@.setup.config.height == new_size.height
                &&& command == Command::ConfigureSurface(final(self)@.setup.config)
            },
    {
        self.handle(Signal::Host(HostEvent::Resized(new_size)), 0)
    }

    /// Takes up a redraw request at `now`, as `handle` does for the host's
    /// redraw event. The surface context stays as it is; on a configured
    /// surface a ready orchestrator goes on to acquire the frame image,
    /// after a rebuild of the offscreen texture where one is due.
    pub fn render(&mut self, now: u64) -> (command: Command)
        requires
            old(self)@.wf(),
            old(self)@.rebuild_pending() ==> old(self)@.registry.has_free_handle(),
        ensures
            (final(self)@, command) == old(self)@.step(
                Signal::Host(HostEvent::RedrawRequested),
                now,
            ),
            final(self)@.wf(),
            final(self)@.setup == old(self)@.setup,
            old(self)@.phase == Phase::Ready && old(self)@.setup.surface_configured ==> {
                &&& command == Command::AcquireFrame || command is RebuildTexture
                &&& command is RebuildTexture <==> old(self)@.package.needs_rebuild()
            },
    {
        self.handle(Signal::Host(HostEvent::RedrawRequested), now)
    }
}

} // verus!
