//! Window renderer with proper transparency support.
//!
//! True window transparency needs a particular backend on some platforms, a
//! pre-multiplied alpha mode, and a transparent base color. The surface's
//! own texture cannot be written by compute shaders, so a frame is rendered
//! into an intermediate texture of the same size and copied to the surface.
//!
//! This module holds every decision of that scheme: which backend, alpha
//! mode, pixel format and features to ask for, what the surface
//! configuration and the intermediate texture look like, when the renderer
//! is active, and which steps make up a frame. It touches no GPU. The caller
//! owns the device, the surface and the textures, reports what the platform
//! offered, and carries out what is decided here.

use vstd::prelude::*;
use wgpu::{Features, Limits};

verus! {

/// `wgpu::Features`, a set of device features held as bit flags. Its
/// contents are hidden; [`feature_flags`] names them.
#[verifier::external_type_specification]
#[verifier::external_body]
pub struct ExFeatures(wgpu::Features);

/// `wgpu::Limits`, the resource limits asked of a device. A value is
/// stored and handed back, never inspected.
#[verifier::external_type_specification]
#[verifier::external_body]
pub struct ExLimits(wgpu::Limits);

/// The positions of the bits that are set in a `wgpu::Features` value,
/// counted through its words in order.
pub uninterp spec fn feature_flags(features: Features) -> Set<nat>;

/// `&` on `wgpu::Features`: each word of the result is the bitwise and of
/// the operands' words, so the result holds the flags that both hold.
#[verifier::external_body]
fn intersect_features(a: Features, b: Features) -> (both: Features)
    ensures
        feature_flags(both) == feature_flags(a).intersect(feature_flags(b)),
{
    a & b
}

/// `wgpu::Features::default()`: the value with no bit set.
#[verifier::external_body]
fn no_features() -> (none: Features)
    ensures
        feature_flags(none) == Set::<nat>::empty(),
{
    Features::default()
}

/// The platforms that matter to backend selection.
#[derive(Debug, Clone, Copy, PartialEq, Eq, Structural)]
pub enum Platform {
    /// Transparent windows need DX12 with DirectComposition here.
    Windows,
    /// Any platform without such a need.
    Other,
}

/// Which GPU backends to create the instance with.
#[derive(Debug, Clone, Copy, PartialEq, Eq, Structural)]
pub enum BackendChoice {
    /// DX12 only.
    Dx12,
    /// Whatever the environment asks for, or else the platform's default.
    FromEnvironment,
}

/// The backend to use, and whether the DirectComposition presentation mode
/// has to be switched on before the GPU instance is created.
#[derive(Debug, Clone, Copy, PartialEq, Eq, Structural)]
pub struct BackendSelection {
    pub backend: BackendChoice,
    pub direct_composition: bool,
}

/// How the compositor blends the surface with what lies behind the window.
#[derive(Debug, Clone, Copy, PartialEq, Eq, Structural)]
pub enum AlphaMode {
    Auto,
    Opaque,
    PreMultiplied,
    PostMultiplied,
    Inherit,
}

/// The alpha mode to configure the surface with, and whether transparency
/// was asked for but could not be had.
#[derive(Debug, Clone, Copy, PartialEq, Eq, Structural)]
pub struct AlphaSelection {
    pub mode: AlphaMode,
    pub degraded: bool,
}

/// A pixel format that a surface offers. The two that the renderer prefers
/// are named; any other is known by its position in the adapter's list.
#[derive(Debug, Clone, Copy, PartialEq, Eq, Structural)]
pub enum SurfaceFormat {
    Rgba8Unorm,
    Bgra8Unorm,
    Other(u32),
}

/// When frames are handed to the display.
#[derive(Debug, Clone, Copy, PartialEq, Eq, Structural)]
pub enum PresentMode {
    AutoVsync,
    AutoNoVsync,
    Fifo,
    FifoRelaxed,
    Immediate,
    Mailbox,
}

/// What a texture may be used for.
#[derive(Debug, Clone, Copy, PartialEq, Eq, Structural)]
pub struct TextureUsage {
    pub copy_src: bool,
    pub copy_dst: bool,
    pub texture_binding: bool,
    pub storage_binding: bool,
    pub render_attachment: bool,
}

impl TextureUsage {
    /// The surface is drawn to and copied into, nothing else: it is never
    /// bound as storage.
    pub open spec fn surface() -> TextureUsage {
        TextureUsage {
            copy_src: false,
            copy_dst: true,
            texture_binding: false,
            storage_binding: false,
            render_attachment: true,
        }
    }

    /// The intermediate texture is written by compute shaders, sampled, and
    /// copied from.
    pub open spec fn intermediate() -> TextureUsage {
        TextureUsage {
            copy_src: true,
            copy_dst: false,
            texture_binding: true,
            storage_binding: true,
            render_attachment: false,
        }
    }
}

/// The configuration of a window's surface.
#[derive(Debug, Clone, Copy, PartialEq, Eq, Structural)]
pub struct SurfaceConfig {
    pub usage: TextureUsage,
    pub format: SurfaceFormat,
    pub width: u32,
    pub height: u32,
    pub present_mode: PresentMode,
    pub desired_maximum_frame_latency: u32,
    pub alpha_mode: AlphaMode,
}

/// The description of the intermediate render texture: a two-dimensional
/// texture with a single layer, mip level and sample.
#[derive(Debug, Clone, Copy, PartialEq, Eq, Structural)]
pub struct TextureSpec {
    pub width: u32,
    pub height: u32,
    pub depth_or_array_layers: u32,
    pub mip_level_count: u32,
    pub sample_count: u32,
    pub format: SurfaceFormat,
    pub usage: TextureUsage,
}

impl TextureSpec {
    /// The intermediate texture for a surface of the given format and size.
    pub open spec fn intermediate(format: SurfaceFormat, width: u32, height: u32) -> TextureSpec {
        TextureSpec {
            width,
            height,
            depth_or_array_layers: 1,
            mip_level_count: 1,
            sample_count: 1,
            format,
            usage: TextureUsage::intermediate(),
        }
    }
}

/// A color with eight bits for each of red, green, blue and alpha.
#[derive(Debug, Clone, Copy, PartialEq, Eq, Structural)]
pub struct BaseColor {
    pub r: u8,
    pub g: u8,
    pub b: u8,
    pub a: u8,
}

impl BaseColor {
    /// Opaque white.
    pub open spec fn white() -> BaseColor {
        BaseColor { r: 255, g: 255, b: 255, a: 255 }
    }
}

/// The antialiasing method of a frame.
#[derive(Debug, Clone, Copy, PartialEq, Eq, Structural)]
pub enum AaMethod {
    Area,
    Msaa8,
    Msaa16,
}

/// The antialiasing methods that the GPU-side renderer is built for.
#[derive(Debug, Clone, Copy, PartialEq, Eq, Structural)]
pub struct AaSupport {
    pub area: bool,
    pub msaa8: bool,
    pub msaa16: bool,
}

/// How the GPU-side renderer is built.
#[derive(Debug, Clone, Copy, PartialEq, Eq, Structural)]
pub struct RendererSetup {
    pub antialiasing_support: AaSupport,
    pub use_cpu: bool,
}

impl RendererSetup {
    /// Every antialiasing method supported, and no fallback to the CPU.
    pub open spec fn gpu_only() -> RendererSetup {
        RendererSetup {
            antialiasing_support: AaSupport { area: true, msaa8: true, msaa16: true },
            use_cpu: false,
        }
    }
}

/// Why a renderer could not become active.
#[derive(Debug, Clone, Copy, PartialEq, Eq, Structural)]
pub enum RenderError {
    /// The surface could not be created for the window.
    SurfaceCreation,
    /// No adapter can drive the surface.
    NoAdapter,
    /// The adapter offers no pixel format for the surface.
    NoSurfaceFormat,
    /// The adapter refused to create the device.
    DeviceCreation,
    /// The GPU-side renderer could not be created.
    RendererCreation,
}

/// The backend for a window: DX12 with DirectComposition where a
/// transparent window is wanted on Windows, the environment's choice
/// everywhere else.
pub open spec fn spec_select_backend(transparent: bool, platform: Platform) -> BackendSelection {
    if transparent && platform == Platform::Windows {
        BackendSelection { backend: BackendChoice::Dx12, direct_composition: true }
    } else {
        BackendSelection { backend: BackendChoice::FromEnvironment, direct_composition: false }
    }
}

/// Chooses the backend for a window.
pub fn select_backend(transparent: bool, platform: Platform) -> (selection: BackendSelection)
    ensures
        selection == spec_select_backend(transparent, platform),
{
    if transparent && platform == Platform::Windows {
        BackendSelection { backend: BackendChoice::Dx12, direct_composition: true }
    } else {
        BackendSelection { backend: BackendChoice::FromEnvironment, direct_composition: false }
    }
}

/// The alpha mode for a surface that offers `modes`: pre-multiplied where
/// transparency is wanted and offered, automatic otherwise; degraded where
/// it is wanted and not offered.
pub open spec fn spec_select_alpha_mode(transparent: bool, modes: Seq<AlphaMode>) -> AlphaSelection {
    if transparent && modes.contains(AlphaMode::PreMultiplied) {
        AlphaSelection { mode: AlphaMode::PreMultiplied, degraded: false }
    } else {
        AlphaSelection { mode: AlphaMode::Auto, degraded: transparent }
    }
}

/// Whether `wanted` is among `modes`.
fn offers_mode(modes: &Vec<AlphaMode>, wanted: AlphaMode) -> (found: bool)
    ensures
        found == modes@.contains(wanted),
{
    let mut i: usize = 0;
    while i < modes.len()
        invariant
            i <= modes.len(),
            forall|j: int| 0 <= j < i ==> modes@[j] != wanted,
        decreases modes.len() - i,
    {
        if modes[i] == wanted {
            return true;
        }
        i += 1;
    }
    false
}

/// Chooses the alpha mode for a surface that offers `modes`.
pub fn select_alpha_mode(transparent: bool, modes: &Vec<AlphaMode>) -> (selection: AlphaSelection)
    ensures
        selection == spec_select_alpha_mode(transparent, modes@),
{
    if transparent && offers_mode(modes, AlphaMode::PreMultiplied) {
        AlphaSelection { mode: AlphaMode::PreMultiplied, degraded: false }
    } else {
        AlphaSelection { mode: AlphaMode::Auto, degraded: transparent }
    }
}

/// The pixel format for a surface that offers `formats`: RGBA where it is
/// offered, else BGRA where that is, else the first one offered; none where
/// nothing is offered.
pub open spec fn spec_select_format(formats: Seq<SurfaceFormat>) -> Option<SurfaceFormat> {
    if formats.contains(SurfaceFormat::Rgba8Unorm) {
        Some(SurfaceFormat::Rgba8Unorm)
    } else if formats.contains(SurfaceFormat::Bgra8Unorm) {
        Some(SurfaceFormat::Bgra8Unorm)
    } else if formats.len() > 0 {
        Some(formats[0])
    } else {
        None
    }
}

/// Whether `wanted` is among `formats`.
fn offers_format(formats: &Vec<SurfaceFormat>, wanted: SurfaceFormat) -> (found: bool)
    ensures
        found == formats@.contains(wanted),
{
    let mut i: usize = 0;
    while i < formats.len()
        invariant
            i <= formats.len(),
            forall|j: int| 0 <= j < i ==> formats@[j] != wanted,
        decreases formats.len() - i,
    {
        if formats[i] == wanted {
            return true;
        }
        i += 1;
    }
    false
}

/// Chooses the pixel format for a surface that offers `formats`.
pub fn select_format(formats: &Vec<SurfaceFormat>) -> (format: Option<SurfaceFormat>)
    ensures
        format == spec_select_format(formats@),
{
    if offers_format(formats, SurfaceFormat::Rgba8Unorm) {
        Some(SurfaceFormat::Rgba8Unorm)
    } else if offers_format(formats, SurfaceFormat::Bgra8Unorm) {
        Some(SurfaceFormat::Bgra8Unorm)
    } else if formats.len() > 0 {
        Some(formats[0])
    } else {
        None
    }
}

/// The flags to ask of a device: those that were requested and that the
/// adapter has. With nothing requested, none.
pub open spec fn spec_select_features(requested: Option<Features>, available: Features) -> Set<nat> {
    match requested {
        Some(wanted) => feature_flags(wanted).intersect(feature_flags(available)),
        None => Set::empty(),
    }
}

/// Chooses the features to ask of a device. The result never holds a flag
/// that the adapter lacks.
pub fn select_features(requested: Option<Features>, available: Features) -> (features: Features)
    ensures
        feature_flags(features) == spec_select_features(requested, available),
        feature_flags(features).subset_of(feature_flags(available)),
{
    let wanted = match requested {
        Some(wanted) => wanted,
        None => no_features(),
    };
    let features = intersect_features(wanted, available);
    assert(feature_flags(features) =~= spec_select_features(requested, available));
    features
}

/// Options for configuring the transparent window renderer.
#[derive(Debug, Clone)]
pub struct TransparentRendererOptions {
    /// Device features to ask for, as far as the adapter has them.
    pub features: Option<Features>,
    /// Resource limits to ask for; the defaults where none are given.
    pub limits: Option<Limits>,
    /// The color that a frame is cleared to.
    pub base_color: BaseColor,
    /// The antialiasing method of every frame.
    pub antialiasing_method: AaMethod,
    /// Whether the window is to be see-through.
    pub transparent: bool,
}

impl TransparentRendererOptions {
    /// Whether `self` holds the default options: no features, no limits, a
    /// white base color, sixteen-fold multisampling, no transparency.
    pub open spec fn is_default(self) -> bool {
        &&& self.features is None
        &&& self.limits is None
        &&& self.base_color == BaseColor::white()
        &&& self.antialiasing_method == AaMethod::Msaa16
        &&& !self.transparent
    }
}

impl Default for TransparentRendererOptions {
    fn default() -> (options: TransparentRendererOptions)
        ensures
            options.is_default(),
    {
        TransparentRendererOptions {
            features: None,
            limits: None,
            base_color: BaseColor { r: 255, g: 255, b: 255, a: 255 },
            antialiasing_method: AaMethod::Msaa16,
            transparent: false,
        }
    }
}

/// What the chosen adapter offers for the window's surface.
#[derive(Debug)]
pub struct AdapterReport {
    /// The alpha modes of the surface, in the adapter's order.
    pub alpha_modes: Vec<AlphaMode>,
    /// The pixel formats of the surface, in the adapter's order.
    pub formats: Vec<SurfaceFormat>,
    /// The features that the adapter has.
    pub features: Features,
}

/// What an active renderer holds: the surface's configuration, the
/// description of the intermediate texture, the features its device was
/// asked for, how its GPU-side renderer is built, and whether transparency
/// had to be given up.
#[derive(Debug, Clone, Copy, PartialEq, Eq)]
pub struct ActiveRenderState {
    pub surface_config: SurfaceConfig,
    pub render_texture: TextureSpec,
    pub features: Features,
    pub renderer: RendererSetup,
    pub transparency_degraded: bool,
}

impl ActiveRenderState {
    /// The intermediate texture is the one that belongs to the surface:
    /// same size, same format, usable as the compositor needs it; and the
    /// surface is used as a render target and copy destination only.
    pub open spec fn wf(self) -> bool {
        &&& self.render_texture == TextureSpec::intermediate(
            self.surface_config.format,
            self.surface_config.width,
            self.surface_config.height,
        )
        &&& self.surface_config.usage == TextureUsage::surface()
    }

    /// The state after the surface was resized: the configuration with the
    /// new size, and a new intermediate texture of that size in the
    /// surface's format.
    pub open spec fn resized(self, width: u32, height: u32) -> ActiveRenderState {
        ActiveRenderState {
            surface_config: SurfaceConfig { width, height, ..self.surface_config },
            render_texture: TextureSpec::intermediate(self.surface_config.format, width, height),
            ..self
        }
    }
}

/// The two states of a renderer.
#[derive(Debug, Clone, Copy, PartialEq, Eq)]
pub enum RenderState {
    /// The renderer holds GPU resources set up as described.
    Active(ActiveRenderState),
    /// The renderer holds nothing.
    Suspended,
}

/// One step in the life of a renderer: each stands for the method of the
/// same name.
pub enum RendererOp {
    /// `resume`, with what was acquired or why nothing was.
    Resume { acquired: Result<ActiveRenderState, RenderError> },
    /// `suspend`.
    Suspend,
    /// `set_size`.
    SetSize { width: u32, height: u32 },
}

impl RendererOp {
    /// What a step may be given: the state that a renderer resumes on is
    /// well-formed.
    pub open spec fn wf(self) -> bool {
        self matches RendererOp::Resume { acquired: Ok(active) } ==> active.wf()
    }
}

impl RenderState {
    /// While active, the intermediate texture matches the surface.
    pub open spec fn wf(self) -> bool {
        match self {
            RenderState::Active(active) => active.wf(),
            RenderState::Suspended => true,
        }
    }

    /// The state after `resume`: active with what was acquired, or as
    /// before where nothing was.
    pub open spec fn resumed(self, acquired: Result<ActiveRenderState, RenderError>) -> RenderState {
        match acquired {
            Ok(active) => RenderState::Active(active),
            Err(_) => self,
        }
    }

    /// The state after `set_size`: an active renderer is resized, a
    /// suspended one stays as it is.
    pub open spec fn resized(self, width: u32, height: u32) -> RenderState {
        match self {
            RenderState::Active(active) => RenderState::Active(active.resized(width, height)),
            RenderState::Suspended => RenderState::Suspended,
        }
    }

    /// The state after one step.
    pub open spec fn after(self, op: RendererOp) -> RenderState {
        match op {
            RendererOp::Resume { acquired } => self.resumed(acquired),
            RendererOp::Suspend => RenderState::Suspended,
            RendererOp::SetSize { width, height } => self.resized(width, height),
        }
    }

    /// The state after the steps of `ops`, taken in order.
    pub open spec fn after_all(self, ops: Seq<RendererOp>) -> RenderState
        decreases ops.len(),
    {
        if ops.len() == 0 {
            self
        } else {
            self.after_all(ops.drop_last()).after(ops.last())
        }
    }
}

/// The parameters of one render of the scene.
#[derive(Debug, Clone, Copy, PartialEq, Eq, Structural)]
pub struct RenderParams {
    pub base_color: BaseColor,
    pub width: u32,
    pub height: u32,
    pub antialiasing_method: AaMethod,
}

/// What happened since the renderer was last asked about the frame.
#[derive(Debug, Clone, Copy, PartialEq, Eq, Structural)]
pub enum FrameEvent {
    /// A frame is due.
    FrameRequested,
    /// The surface handed out its next texture.
    TextureAcquired,
    /// The surface had no texture to hand out.
    AcquireFailed,
    /// The scene was rendered into the intermediate texture.
    SceneRendered,
    /// Rendering the scene failed.
    RenderFailed,
}

/// How far the frame in hand has come.
#[derive(Debug, Clone, Copy, PartialEq, Eq, Structural)]
pub enum FramePhase {
    /// No frame is in hand.
    Idle,
    /// The surface was asked for its next texture.
    AwaitingTexture,
    /// The scene is being rendered into the intermediate texture.
    AwaitingRender,
}

impl FrameEvent {
    /// Whether the event is the answer to what was last asked for: a
    /// request for a frame while none is in hand, the outcome of an
    /// acquisition while one is awaited, the outcome of a render while one
    /// is awaited.
    pub open spec fn expected_in(self, phase: FramePhase) -> bool {
        match phase {
            FramePhase::Idle => self is FrameRequested,
            FramePhase::AwaitingTexture => self is TextureAcquired || self is AcquireFailed,
            FramePhase::AwaitingRender => self is SceneRendered || self is RenderFailed,
        }
    }

    /// Whether the event is the answer to what was last asked for.
    pub fn is_expected_in(self, phase: FramePhase) -> (expected: bool)
        ensures
            expected == self.expected_in(phase),
    {
        match phase {
            FramePhase::Idle => match self {
                FrameEvent::FrameRequested => true,
                _ => false,
            },
            FramePhase::AwaitingTexture => match self {
                FrameEvent::TextureAcquired => true,
                FrameEvent::AcquireFailed => true,
                _ => false,
            },
            FramePhase::AwaitingRender => match self {
                FrameEvent::SceneRendered => true,
                FrameEvent::RenderFailed => true,
                _ => false,
            },
        }
    }
}

/// One thing for the owner of the GPU resources to do.
#[derive(Debug, Clone, Copy, PartialEq, Eq, Structural)]
pub enum FrameStep {
    /// Acquire the surface's next texture.
    AcquireSurfaceTexture,
    /// Make a view of the intermediate texture.
    CreateTextureView,
    /// Run the caller's paint routine on the scene.
    Paint,
    /// Render the scene into the view.
    RenderScene { params: RenderParams },
    /// Copy the whole intermediate texture to the surface's texture.
    CopyToSurface { width: u32, height: u32 },
    /// Submit the copy.
    Submit,
    /// Present the surface's texture.
    Present,
    /// Wait until the GPU has nothing left to do.
    WaitIdle,
    /// Empty the scene.
    ClearScene,
}

/// The steps that follow `event` while the renderer is in `state` and its
/// frame in `phase`, in the order in which they are to be done.
///
/// A suspended renderer does nothing, and an event that answers nothing
/// that was asked for is passed over. A failed acquisition ends the frame:
/// nothing is painted and nothing is retried. A failed render drops the
/// frame but still empties the scene, so that it cannot grow without bound.
pub open spec fn frame_steps(
    state: RenderState,
    phase: FramePhase,
    options: TransparentRendererOptions,
    event: FrameEvent,
) -> Seq<FrameStep> {
    match state {
        RenderState::Suspended => Seq::empty(),
        RenderState::Active(active) => if !event.expected_in(phase) {
            Seq::empty()
        } else {
            match event {
                FrameEvent::FrameRequested => seq![FrameStep::AcquireSurfaceTexture],
                FrameEvent::AcquireFailed => Seq::empty(),
                FrameEvent::TextureAcquired => seq![
                    FrameStep::CreateTextureView,
                    FrameStep::Paint,
                    FrameStep::RenderScene {
                        params: RenderParams {
                            base_color: options.base_color,
                            width: active.surface_config.width,
                            height: active.surface_config.height,
                            antialiasing_method: options.antialiasing_method,
                        },
                    },
                ],
                FrameEvent::SceneRendered => seq![
                    FrameStep::CopyToSurface {
                        width: active.surface_config.width,
                        height: active.surface_config.height,
                    },
                    FrameStep::Submit,
                    FrameStep::Present,
                    FrameStep::WaitIdle,
                    FrameStep::ClearScene,
                ],
                FrameEvent::RenderFailed => seq![FrameStep::ClearScene],
            }
        },
    }
}

/// The phase of the frame after `event`: a suspended renderer and an
/// event that was not expected leave it as it is; a request starts a
/// frame, an acquired texture moves it on, and every other outcome ends it.
pub open spec fn next_phase(state: RenderState, phase: FramePhase, event: FrameEvent) -> FramePhase {
    if state is Suspended || !event.expected_in(phase) {
        phase
    } else {
        match event {
            FrameEvent::FrameRequested => FramePhase::AwaitingTexture,
            FrameEvent::TextureAcquired => FramePhase::AwaitingRender,
            FrameEvent::AcquireFailed => FramePhase::Idle,
            FrameEvent::SceneRendered => FramePhase::Idle,
            FrameEvent::RenderFailed => FramePhase::Idle,
        }
    }
}

/// The state that a renderer with `options` sets up on an adapter that
/// reports `report`, for a surface of the given size and a device asked
/// for `features`; none where the adapter offers no pixel format.
pub open spec fn spec_render_state(
    options: TransparentRendererOptions,
    report: AdapterReport,
    features: Features,
    width: u32,
    height: u32,
) -> Option<ActiveRenderState> {
    match spec_select_format(report.formats@) {
        Some(format) => {
            let alpha = spec_select_alpha_mode(options.transparent, report.alpha_modes@);
            Some(
                ActiveRenderState {
                    surface_config: SurfaceConfig {
                        usage: TextureUsage::surface(),
                        format,
                        width,
                        height,
                        present_mode: PresentMode::AutoVsync,
                        desired_maximum_frame_latency: 2,
                        alpha_mode: alpha.mode,
                    },
                    render_texture: TextureSpec::intermediate(format, width, height),
                    features,
                    renderer: RendererSetup::gpu_only(),
                    transparency_degraded: alpha.degraded,
                },
            )
        },
        None => None,
    }
}

/// A window renderer with proper transparency support.
pub struct TransparentWindowRenderer {
    render_state: RenderState,
    frame: FramePhase,
    config: TransparentRendererOptions,
}

impl TransparentWindowRenderer {
    /// The renderer's state.
    pub closed spec fn state(&self) -> RenderState {
        self.render_state
    }

    /// How far the frame in hand has come.
    pub closed spec fn phase(&self) -> FramePhase {
        self.frame
    }

    /// The options that the renderer was made with.
    pub closed spec fn options(&self) -> TransparentRendererOptions {
        self.config
    }

    /// While the renderer is active, its intermediate texture matches its
    /// surface.
    pub open spec fn wf(&self) -> bool {
        self.state().wf()
    }

    /// A suspended renderer with the default options.
    pub fn new() -> (renderer: TransparentWindowRenderer)
        ensures
            renderer.state() == RenderState::Suspended,
            renderer.phase() == FramePhase::Idle,
            renderer.options().is_default(),
            renderer.wf(),
    {
        TransparentWindowRenderer::with_options(TransparentRendererOptions::default())
    }

    /// A suspended renderer with the given options.
    pub fn with_options(config: TransparentRendererOptions) -> (renderer: TransparentWindowRenderer)
        ensures
            renderer.state() == RenderState::Suspended,
            renderer.phase() == FramePhase::Idle,
            renderer.options() == config,
            renderer.wf(),
    {
        TransparentWindowRenderer {
            config,
            render_state: RenderState::Suspended,
            frame: FramePhase::Idle,
        }
    }

    /// The options that the renderer was made with.
    pub fn config(&self) -> (config: &TransparentRendererOptions)
        ensures
            *config == self.options(),
    {
        &self.config
    }

    /// The renderer's state.
    pub fn render_state(&self) -> (state: RenderState)
        ensures
            state == self.state(),
    {
        self.render_state
    }

    /// How far the frame in hand has come.
    pub fn frame_phase(&self) -> (phase: FramePhase)
        ensures
            phase == self.phase(),
    {
        self.frame
    }

    /// Whether the renderer holds its GPU resources.
    pub fn is_active(&self) -> (active: bool)
        ensures
            active == (self.state() is Active),
    {
        match self.render_state {
            RenderState::Active(_) => true,
            RenderState::Suspended => false,
        }
    }

    /// The backend to create the GPU instance with, before the renderer
    /// resumes on `platform`.
    pub fn select_backend(&self, platform: Platform) -> (selection: BackendSelection)
        ensures
            selection == spec_select_backend(self.options().transparent, platform),
    {
        select_backend(self.config.transparent, platform)
    }

    /// The description of the intermediate texture for a surface of the
    /// given format and size.
    pub fn create_render_texture(format: SurfaceFormat, width: u32, height: u32) -> (texture:
        TextureSpec)
        ensures
            texture == TextureSpec::intermediate(format, width, height),
    {
        TextureSpec {
            width,
            height,
            depth_or_array_layers: 1,
            mip_level_count: 1,
            sample_count: 1,
            format,
            usage: TextureUsage {
                copy_src: true,
                copy_dst: false,
                texture_binding: true,
                storage_binding: true,
                render_attachment: false,
            },
        }
    }

    /// Works out what to set up on the adapter that reported `report`, for
    /// a surface of the given size.
    ///
    /// Fails only where the adapter offers no pixel format. Where
    /// transparency is wanted and no pre-multiplied alpha mode is offered,
    /// this is no failure: the state says that transparency was given up.
    pub fn create_render_state(&self, report: &AdapterReport, width: u32, height: u32) -> (planned:
        Result<ActiveRenderState, RenderError>)
        ensures
            planned is Ok <==> report.formats@.len() > 0,
            planned is Err ==> planned == Err::<ActiveRenderState, RenderError>(
                RenderError::NoSurfaceFormat,
            ),
            planned is Ok ==> Some(planned->Ok_0) == spec_render_state(
                self.options(),
                *report,
                (planned->Ok_0).features,
                width,
                height,
            ),
            planned is Ok ==> feature_flags((planned->Ok_0).features) == spec_select_features(
                self.options().features,
                report.features,
            ),
            planned is Ok ==> (planned->Ok_0).wf(),
    {
        let alpha = select_alpha_mode(self.config.transparent, &report.alpha_modes);
        let format = match select_format(&report.formats) {
            Some(format) => format,
            None => {
                return Err(RenderError::NoSurfaceFormat);
            },
        };
        let features = select_features(self.config.features, report.features);
        let surface_config = SurfaceConfig {
            usage: TextureUsage {
                copy_src: false,
                copy_dst: true,
                texture_binding: false,
                storage_binding: false,
                render_attachment: true,
            },
            format,
            width,
            height,
            present_mode: PresentMode::AutoVsync,
            desired_maximum_frame_latency: 2,
            alpha_mode: alpha.mode,
        };
        let render_texture = Self::create_render_texture(format, width, height);
        let renderer = RendererSetup {
            antialiasing_support: AaSupport { area: true, msaa8: true, msaa16: true },
            use_cpu: false,
        };
        Ok(
            ActiveRenderState {
                surface_config,
                render_texture,
                features,
                renderer,
                transparency_degraded: alpha.degraded,
            },
        )
    }

    /// Makes the renderer active with the resources that were acquired and
    /// ready for a first frame, or leaves it as it is where acquiring them
    /// failed, and hands the failure back.
    pub fn resume(&mut self, acquired: Result<ActiveRenderState, RenderError>) -> (resumed: Result<
        (),
        RenderError,
    >)
        requires
            old(self).wf(),
            acquired is Ok ==> (acquired->Ok_0).wf(),
        ensures
            final(self).wf(),
            final(self).options() == old(self).options(),
            final(self).state() == old(self).state().resumed(acquired),
            final(self).phase() == if acquired is Ok {
                FramePhase::Idle
            } else {
                old(self).phase()
            },
            match acquired {
                Ok(active) => resumed is Ok && final(self).state() == RenderState::Active(active),
                Err(error) => resumed == Err::<(), RenderError>(error) && final(self).state() == old(
                    self,
                ).state(),
            },
    {
        match acquired {
            Ok(active) => {
                self.render_state = RenderState::Active(active);
                self.frame = FramePhase::Idle;
                Ok(())
            },
            Err(error) => Err(error),
        }
    }

    /// Makes the renderer suspended, whatever it was, and gives up the
    /// frame in hand.
    pub fn suspend(&mut self)
        ensures
            final(self).state() == RenderState::Suspended,
            final(self).phase() == FramePhase::Idle,
            final(self).options() == old(self).options(),
            final(self).wf(),
    {
        self.render_state = RenderState::Suspended;
        self.frame = FramePhase::Idle;
    }

    /// Gives the surface a new size and the intermediate texture with it.
    /// A suspended renderer stays as it is.
    pub fn set_size(&mut self, width: u32, height: u32)
        requires
            old(self).wf(),
        ensures
            final(self).wf(),
            final(self).options() == old(self).options(),
            final(self).phase() == old(self).phase(),
            final(self).state() == old(self).state().resized(width, height),
            old(self).state() is Suspended ==> final(self).state() is Suspended,
    {
        match self.render_state {
            RenderState::Active(active) => {
                let surface_config = SurfaceConfig { width, height, ..active.surface_config };
                let render_texture = Self::create_render_texture(
                    surface_config.format,
                    width,
                    height,
                );
                self.render_state = RenderState::Active(
                    ActiveRenderState { surface_config, render_texture, ..active },
                );
            },
            RenderState::Suspended => {},
        }
    }

    /// Says what to do next for the frame, given what just happened, and
    /// moves the frame on.
    pub fn render(&mut self, event: FrameEvent) -> (steps: Vec<FrameStep>)
        ensures
            steps@ == frame_steps(old(self).state(), old(self).phase(), old(self).options(), event),
            final(self).phase() == next_phase(old(self).state(), old(self).phase(), event),
            final(self).state() == old(self).state(),
            final(self).options() == old(self).options(),
    {
        let mut steps: Vec<FrameStep> = Vec::new();
        match self.render_state {
            RenderState::Suspended => {},
            RenderState::Active(active) => {
                let width: u32 = active.surface_config.width;
                let height: u32 = active.surface_config.height;
                if event.is_expected_in(self.frame) {
                    match event {
                        FrameEvent::FrameRequested => {
                            steps.push(FrameStep::AcquireSurfaceTexture);
                            self.frame = FramePhase::AwaitingTexture;
                        },
                        FrameEvent::AcquireFailed => {
                            self.frame = FramePhase::Idle;
                        },
                        FrameEvent::TextureAcquired => {
                            steps.push(FrameStep::CreateTextureView);
                            steps.push(FrameStep::Paint);
                            steps.push(
                                FrameStep::RenderScene {
                                    params: RenderParams {
                                        base_color: self.config.base_color,
                                        width,
                                        height,
                                        antialiasing_method: self.config.antialiasing_method,
                                    },
                                },
                            );
                            self.frame = FramePhase::AwaitingRender;
                        },
                        FrameEvent::SceneRendered => {
                            steps.push(FrameStep::CopyToSurface { width, height });
                            steps.push(FrameStep::Submit);
                            steps.push(FrameStep::Present);
                            steps.push(FrameStep::WaitIdle);
                            steps.push(FrameStep::ClearScene);
                            self.frame = FramePhase::Idle;
                        },
                        FrameEvent::RenderFailed => {
                            steps.push(FrameStep::ClearScene);
                            self.frame = FramePhase::Idle;
                        },
                    }
                }
            },
        }
        assert(steps@ =~= frame_steps(
            old(self).state(),
            old(self).phase(),
            old(self).options(),
            event,
        ));
        steps
    }
}

impl Default for TransparentWindowRenderer {
    fn default() -> (renderer: TransparentWindowRenderer)
        ensures
            renderer.state() == RenderState::Suspended,
            renderer.phase() == FramePhase::Idle,
            renderer.options().is_default(),
            renderer.wf(),
    {
        TransparentWindowRenderer::new()
    }
}

/// The intermediate texture of a well-formed state has the size and the
/// format of its surface, and resizing keeps it so: afterwards both have
/// the new size, and the format is the one the surface had.
pub proof fn lemma_texture_matches_surface(state: ActiveRenderState, width: u32, height: u32)
    requires
        state.wf(),
    ensures
        state.render_texture.width == state.surface_config.width,
        state.render_texture.height == state.surface_config.height,
        state.render_texture.format == state.surface_config.format,
        state.resized(width, height).wf(),
        state.resized(width, height).surface_config.width == width,
        state.resized(width, height).surface_config.height == height,
        state.resized(width, height).render_texture.width == width,
        state.resized(width, height).render_texture.height == height,
        state.resized(width, height).render_texture.format == state.surface_config.format,
{
}

/// Whatever the adapter reports, a state set up from the report is
/// well-formed, and its surface and intermediate texture have the size
/// that was asked for.
pub proof fn lemma_render_state_matches_request(
    options: TransparentRendererOptions,
    report: AdapterReport,
    features: Features,
    width: u32,
    height: u32,
)
    ensures
        spec_render_state(options, report, features, width, height) matches Some(state) ==> {
            &&& state.wf()
            &&& state.surface_config.width == width
            &&& state.surface_config.height == height
            &&& state.render_texture.width == width
            &&& state.render_texture.height == height
            &&& !state.surface_config.usage.storage_binding
            &&& state.render_texture.usage.storage_binding
        },
        spec_render_state(options, report, features, width, height) is Some
            <==> report.formats@.len() > 0,
{
    let formats = report.formats@;
    if formats.contains(SurfaceFormat::Rgba8Unorm) || formats.contains(SurfaceFormat::Bgra8Unorm) {
        assert(formats.len() > 0);
    }
}

/// A suspended renderer has nothing to do for a frame, whatever happened;
/// an active one, told that the surface gave no texture, skips the frame;
/// and an event that answers nothing that was asked for changes nothing.
pub proof fn lemma_no_frame_without_surface(
    state: RenderState,
    phase: FramePhase,
    options: TransparentRendererOptions,
    event: FrameEvent,
)
    ensures
        state is Suspended ==> frame_steps(state, phase, options, event).len() == 0 && next_phase(
            state,
            phase,
            event,
        ) == phase,
        frame_steps(state, phase, options, FrameEvent::AcquireFailed).len() == 0,
        state is Active ==> next_phase(state, FramePhase::AwaitingTexture, FrameEvent::AcquireFailed)
            == FramePhase::Idle,
        !event.expected_in(phase) ==> frame_steps(state, phase, options, event).len() == 0
            && next_phase(state, phase, event) == phase,
{
}

/// A frame of an active renderer runs in one order only. From rest, a
/// request acquires the surface's texture. Once acquired, the view is
/// made, the scene painted and then rendered with the renderer's base
/// color and antialiasing method at the surface's size. Once rendered, the
/// whole surface is copied to, the copy submitted, the texture presented,
/// the GPU waited for and the scene emptied, in that order, and the frame
/// is at rest again. A failed render empties the scene too.
pub proof fn lemma_frame_is_ordered(active: ActiveRenderState, options: TransparentRendererOptions)
    ensures
        ({
            let state = RenderState::Active(active);
            let width = active.surface_config.width;
            let height = active.surface_config.height;
            let params = RenderParams {
                base_color: options.base_color,
                width,
                height,
                antialiasing_method: options.antialiasing_method,
            };
            &&& frame_steps(state, FramePhase::Idle, options, FrameEvent::FrameRequested)
                == seq![FrameStep::AcquireSurfaceTexture]
            &&& next_phase(state, FramePhase::Idle, FrameEvent::FrameRequested)
                == FramePhase::AwaitingTexture
            &&& frame_steps(state, FramePhase::AwaitingTexture, options, FrameEvent::TextureAcquired)
                == seq![
                FrameStep::CreateTextureView,
                FrameStep::Paint,
                FrameStep::RenderScene { params },
            ]
            &&& next_phase(state, FramePhase::AwaitingTexture, FrameEvent::TextureAcquired)
                == FramePhase::AwaitingRender
            &&& frame_steps(state, FramePhase::AwaitingRender, options, FrameEvent::SceneRendered)
                == seq![
                FrameStep::CopyToSurface { width, height },
                FrameStep::Submit,
                FrameStep::Present,
                FrameStep::WaitIdle,
                FrameStep::ClearScene,
            ]
            &&& next_phase(state, FramePhase::AwaitingRender, FrameEvent::SceneRendered)
                == FramePhase::Idle
            &&& frame_steps(state, FramePhase::AwaitingRender, options, FrameEvent::RenderFailed)
                == seq![FrameStep::ClearScene]
            &&& next_phase(state, FramePhase::AwaitingRender, FrameEvent::RenderFailed)
                == FramePhase::Idle
        }),
{
}

/// Through every sequence of steps a renderer that started well-formed
/// stays so: whenever it is active, its intermediate texture has the size
/// and format of its surface. Right after a `resume` that acquired its
/// resources it is active with them; right after one that did not, it is
/// as it was; right after `suspend` it is suspended; and `set_size` wakes
/// no suspended renderer.
pub proof fn lemma_lifecycle(start: RenderState, ops: Seq<RendererOp>)
    requires
        start.wf(),
        forall|i: int| 0 <= i < ops.len() ==> (#[trigger] ops[i]).wf(),
    ensures
        start.after_all(ops).wf(),
        start.after_all(ops) matches RenderState::Active(active) ==> {
            &&& active.render_texture.width == active.surface_config.width
            &&& active.render_texture.height == active.surface_config.height
            &&& active.render_texture.format == active.surface_config.format
        },
        ops.len() > 0 ==> match ops.last() {
            RendererOp::Resume { acquired: Ok(active) } => start.after_all(ops)
                == RenderState::Active(active),
            RendererOp::Resume { acquired: Err(_) } => start.after_all(ops) == start.after_all(
                ops.drop_last(),
            ),
            RendererOp::Suspend => start.after_all(ops) == RenderState::Suspended,
            RendererOp::SetSize { width, height } => match start.after_all(ops.drop_last()) {
                RenderState::Suspended => start.after_all(ops) == RenderState::Suspended,
                RenderState::Active(_) => start.after_all(ops) matches RenderState::Active(
                    active,
                ) && active.surface_config.width == width && active.surface_config.height
                    == height && active.render_texture.width == width
                    && active.render_texture.height == height,
            },
        },
    decreases ops.len(),
{
    if ops.len() > 0 {
        let before = ops.drop_last();
        assert forall|i: int| 0 <= i < before.len() implies (#[trigger] before[i]).wf() by {
            assert(before[i] == ops[i]);
        }
        lemma_lifecycle(start, before);
        assert(ops[ops.len() - 1].wf());
    }
}

} // verus!
