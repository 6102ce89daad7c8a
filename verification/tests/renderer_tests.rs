use rinch::shell::transparent_renderer::{
    select_alpha_mode, select_backend, select_features, select_format, AaMethod, AaSupport,
    ActiveRenderState, AdapterReport, AlphaMode, AlphaSelection, BackendChoice, BackendSelection,
    BaseColor, FrameEvent, FramePhase, FrameStep, Platform, PresentMode, RenderError, RenderParams,
    RenderState, RendererSetup, SurfaceConfig, SurfaceFormat, TextureSpec, TextureUsage,
    TransparentRendererOptions, TransparentWindowRenderer,
};
use wgpu::Features;

fn surface_usage() -> TextureUsage {
    TextureUsage {
        copy_src: false,
        copy_dst: true,
        texture_binding: false,
        storage_binding: false,
        render_attachment: true,
    }
}

fn intermediate_usage() -> TextureUsage {
    TextureUsage {
        copy_src: true,
        copy_dst: false,
        texture_binding: true,
        storage_binding: true,
        render_attachment: false,
    }
}

fn transparent_options() -> TransparentRendererOptions {
    TransparentRendererOptions {
        features: None,
        limits: None,
        base_color: BaseColor { r: 0, g: 0, b: 0, a: 0 },
        antialiasing_method: AaMethod::Area,
        transparent: true,
    }
}

fn report(alpha_modes: Vec<AlphaMode>, formats: Vec<SurfaceFormat>) -> AdapterReport {
    AdapterReport { alpha_modes, formats, features: Features::empty() }
}

fn active(renderer: &TransparentWindowRenderer) -> ActiveRenderState {
    match renderer.render_state() {
        RenderState::Active(state) => state,
        RenderState::Suspended => panic!("the renderer is suspended"),
    }
}

#[test]
fn default_options() {
    let options = TransparentRendererOptions::default();
    assert_eq!(options.features, None);
    assert_eq!(options.limits, None);
    assert_eq!(options.base_color, BaseColor { r: 255, g: 255, b: 255, a: 255 });
    assert_eq!(options.antialiasing_method, AaMethod::Msaa16);
    assert!(!options.transparent);
}

#[test]
fn options_carry_limits_through() {
    let limits = wgpu::Limits::downlevel_defaults();
    let options = TransparentRendererOptions {
        features: Some(Features::DEPTH_CLIP_CONTROL),
        limits: Some(limits.clone()),
        base_color: BaseColor { r: 1, g: 2, b: 3, a: 4 },
        antialiasing_method: AaMethod::Msaa8,
        transparent: true,
    };
    let renderer = TransparentWindowRenderer::with_options(options);
    assert_eq!(renderer.config().limits, Some(limits));
    assert_eq!(renderer.config().features, Some(Features::DEPTH_CLIP_CONTROL));
    assert_eq!(renderer.config().base_color, BaseColor { r: 1, g: 2, b: 3, a: 4 });
    assert_eq!(renderer.config().antialiasing_method, AaMethod::Msaa8);
    assert!(renderer.config().transparent);
}

#[test]
fn backend_is_forced_only_for_transparency_on_windows() {
    assert_eq!(
        select_backend(true, Platform::Windows),
        BackendSelection { backend: BackendChoice::Dx12, direct_composition: true }
    );
    let from_env =
        BackendSelection { backend: BackendChoice::FromEnvironment, direct_composition: false };
    assert_eq!(select_backend(false, Platform::Windows), from_env);
    assert_eq!(select_backend(true, Platform::Other), from_env);
    assert_eq!(select_backend(false, Platform::Other), from_env);
}

#[test]
fn renderer_selects_backend_from_its_options() {
    let opaque = TransparentWindowRenderer::new();
    assert_eq!(
        opaque.select_backend(Platform::Windows),
        BackendSelection { backend: BackendChoice::FromEnvironment, direct_composition: false }
    );
    let transparent = TransparentWindowRenderer::with_options(transparent_options());
    assert_eq!(
        transparent.select_backend(Platform::Windows),
        BackendSelection { backend: BackendChoice::Dx12, direct_composition: true }
    );
    assert_eq!(
        transparent.select_backend(Platform::Other),
        BackendSelection { backend: BackendChoice::FromEnvironment, direct_composition: false }
    );
}

#[test]
fn alpha_mode_is_premultiplied_when_wanted_and_offered() {
    let modes = vec![AlphaMode::Opaque, AlphaMode::PreMultiplied, AlphaMode::Inherit];
    assert_eq!(
        select_alpha_mode(true, &modes),
        AlphaSelection { mode: AlphaMode::PreMultiplied, degraded: false }
    );
    assert_eq!(
        select_alpha_mode(false, &modes),
        AlphaSelection { mode: AlphaMode::Auto, degraded: false }
    );
}

#[test]
fn alpha_mode_degrades_to_auto_when_not_offered() {
    let modes = vec![AlphaMode::Opaque, AlphaMode::PostMultiplied, AlphaMode::Auto];
    assert_eq!(
        select_alpha_mode(true, &modes),
        AlphaSelection { mode: AlphaMode::Auto, degraded: true }
    );
    assert_eq!(
        select_alpha_mode(true, &Vec::new()),
        AlphaSelection { mode: AlphaMode::Auto, degraded: true }
    );
    assert_eq!(
        select_alpha_mode(false, &Vec::new()),
        AlphaSelection { mode: AlphaMode::Auto, degraded: false }
    );
}

#[test]
fn format_prefers_rgba_then_bgra_then_the_first() {
    assert_eq!(
        select_format(&vec![
            SurfaceFormat::Other(0),
            SurfaceFormat::Bgra8Unorm,
            SurfaceFormat::Rgba8Unorm
        ]),
        Some(SurfaceFormat::Rgba8Unorm)
    );
    assert_eq!(
        select_format(&vec![SurfaceFormat::Other(0), SurfaceFormat::Bgra8Unorm]),
        Some(SurfaceFormat::Bgra8Unorm)
    );
    assert_eq!(
        select_format(&vec![SurfaceFormat::Other(4), SurfaceFormat::Other(2)]),
        Some(SurfaceFormat::Other(4))
    );
    assert_eq!(select_format(&Vec::new()), None);
}

#[test]
fn features_are_the_requested_ones_that_the_adapter_has() {
    let a = Features::POLYGON_MODE_LINE;
    let b = Features::TIMESTAMP_QUERY;
    let d = Features::TEXTURE_COMPRESSION_BC;
    assert_eq!(select_features(Some(a | b), b | d), b);
    assert_eq!(select_features(Some(a), b | d), Features::empty());
    assert_eq!(select_features(Some(a | b | d), a | b | d), a | b | d);
    assert_eq!(select_features(Some(Features::all()), a | d), a | d);
    assert_eq!(select_features(None, a | b | d), Features::empty());
    assert_eq!(select_features(None, Features::all()), Features::empty());
}

#[test]
fn new_renderer_is_suspended() {
    let renderer = TransparentWindowRenderer::new();
    assert!(!renderer.is_active());
    assert_eq!(renderer.render_state(), RenderState::Suspended);
    let by_default = TransparentWindowRenderer::default();
    assert!(!by_default.is_active());
    assert_eq!(by_default.config().antialiasing_method, AaMethod::Msaa16);
}

#[test]
fn render_texture_description() {
    assert_eq!(
        TransparentWindowRenderer::create_render_texture(SurfaceFormat::Bgra8Unorm, 640, 480),
        TextureSpec {
            width: 640,
            height: 480,
            depth_or_array_layers: 1,
            mip_level_count: 1,
            sample_count: 1,
            format: SurfaceFormat::Bgra8Unorm,
            usage: intermediate_usage(),
        }
    );
}

#[test]
fn render_state_for_a_transparent_window() {
    let mut options = transparent_options();
    options.features = Some(Features::DEPTH_CLIP_CONTROL | Features::TIMESTAMP_QUERY);
    let renderer = TransparentWindowRenderer::with_options(options);
    let report = AdapterReport {
        alpha_modes: vec![AlphaMode::Opaque, AlphaMode::PreMultiplied],
        formats: vec![SurfaceFormat::Bgra8Unorm, SurfaceFormat::Rgba8Unorm],
        features: Features::TIMESTAMP_QUERY | Features::TEXTURE_COMPRESSION_BC,
    };
    let state = renderer.create_render_state(&report, 1280, 720);
    assert_eq!(
        state,
        Ok(ActiveRenderState {
            surface_config: SurfaceConfig {
                usage: surface_usage(),
                format: SurfaceFormat::Rgba8Unorm,
                width: 1280,
                height: 720,
                present_mode: PresentMode::AutoVsync,
                desired_maximum_frame_latency: 2,
                alpha_mode: AlphaMode::PreMultiplied,
            },
            render_texture: TextureSpec {
                width: 1280,
                height: 720,
                depth_or_array_layers: 1,
                mip_level_count: 1,
                sample_count: 1,
                format: SurfaceFormat::Rgba8Unorm,
                usage: intermediate_usage(),
            },
            features: Features::TIMESTAMP_QUERY,
            renderer: RendererSetup {
                antialiasing_support: AaSupport { area: true, msaa8: true, msaa16: true },
                use_cpu: false,
            },
            transparency_degraded: false,
        })
    );
}

#[test]
fn render_state_fails_without_a_format() {
    let renderer = TransparentWindowRenderer::new();
    let state = renderer.create_render_state(&report(vec![AlphaMode::Opaque], Vec::new()), 10, 10);
    assert_eq!(state, Err(RenderError::NoSurfaceFormat));
}

#[test]
fn transparency_degrades_to_opaque_and_frames_still_render() {
    let mut renderer = TransparentWindowRenderer::with_options(transparent_options());
    let report = report(
        vec![AlphaMode::Opaque, AlphaMode::Auto],
        vec![SurfaceFormat::Bgra8Unorm],
    );
    let state = renderer.create_render_state(&report, 800, 600).unwrap();
    assert_eq!(state.surface_config.alpha_mode, AlphaMode::Auto);
    assert!(state.transparency_degraded);
    assert_eq!(state.surface_config.format, SurfaceFormat::Bgra8Unorm);

    assert_eq!(renderer.resume(Ok(state)), Ok(()));
    assert!(renderer.is_active());
    assert_eq!(
        renderer.render(FrameEvent::FrameRequested),
        vec![FrameStep::AcquireSurfaceTexture]
    );
    assert_eq!(
        renderer.render(FrameEvent::TextureAcquired),
        vec![
            FrameStep::CreateTextureView,
            FrameStep::Paint,
            FrameStep::RenderScene {
                params: RenderParams {
                    base_color: BaseColor { r: 0, g: 0, b: 0, a: 0 },
                    width: 800,
                    height: 600,
                    antialiasing_method: AaMethod::Area,
                },
            },
        ]
    );
    assert_eq!(
        renderer.render(FrameEvent::SceneRendered),
        vec![
            FrameStep::CopyToSurface { width: 800, height: 600 },
            FrameStep::Submit,
            FrameStep::Present,
            FrameStep::WaitIdle,
            FrameStep::ClearScene,
        ]
    );
}

#[test]
fn resume_and_suspend_alternate() {
    let mut renderer = TransparentWindowRenderer::new();
    let report = report(vec![AlphaMode::Opaque], vec![SurfaceFormat::Rgba8Unorm]);
    for round in 0..3u32 {
        let state = renderer.create_render_state(&report, 100 + round, 200 + round).unwrap();
        assert_eq!(renderer.resume(Ok(state)), Ok(()));
        assert!(renderer.is_active());
        assert_eq!(renderer.render_state(), RenderState::Active(state));
        let now = active(&renderer);
        assert_eq!(now.render_texture.width, now.surface_config.width);
        assert_eq!(now.render_texture.height, now.surface_config.height);
        assert_eq!(now.surface_config.width, 100 + round);
        assert_eq!(now.surface_config.height, 200 + round);
        renderer.suspend();
        assert!(!renderer.is_active());
        renderer.suspend();
        assert!(!renderer.is_active());
    }
}

#[test]
fn failed_acquisition_leaves_the_renderer_suspended() {
    let mut renderer = TransparentWindowRenderer::new();
    for error in [
        RenderError::SurfaceCreation,
        RenderError::NoAdapter,
        RenderError::NoSurfaceFormat,
        RenderError::DeviceCreation,
        RenderError::RendererCreation,
    ] {
        assert_eq!(renderer.resume(Err(error)), Err(error));
        assert!(!renderer.is_active());
        assert_eq!(renderer.render_state(), RenderState::Suspended);
    }
}

#[test]
fn set_size_recreates_the_texture_at_the_new_size() {
    let mut renderer = TransparentWindowRenderer::new();
    let report = report(
        vec![AlphaMode::Opaque],
        vec![SurfaceFormat::Other(0), SurfaceFormat::Bgra8Unorm],
    );
    let state = renderer.create_render_state(&report, 800, 600).unwrap();
    renderer.resume(Ok(state)).unwrap();
    renderer.set_size(1024, 768);
    let now = active(&renderer);
    assert_eq!(
        now.surface_config,
        SurfaceConfig {
            usage: surface_usage(),
            format: SurfaceFormat::Bgra8Unorm,
            width: 1024,
            height: 768,
            present_mode: PresentMode::AutoVsync,
            desired_maximum_frame_latency: 2,
            alpha_mode: AlphaMode::Auto,
        }
    );
    assert_eq!(
        now.render_texture,
        TextureSpec {
            width: 1024,
            height: 768,
            depth_or_array_layers: 1,
            mip_level_count: 1,
            sample_count: 1,
            format: SurfaceFormat::Bgra8Unorm,
            usage: intermediate_usage(),
        }
    );
    assert_eq!(renderer.render(FrameEvent::FrameRequested).len(), 1);
    assert_eq!(renderer.render(FrameEvent::TextureAcquired).len(), 3);
    assert_eq!(
        renderer.render(FrameEvent::SceneRendered)[0],
        FrameStep::CopyToSurface { width: 1024, height: 768 }
    );
}

#[test]
fn set_size_while_suspended_changes_nothing() {
    let mut renderer = TransparentWindowRenderer::new();
    renderer.set_size(1, 2);
    assert!(!renderer.is_active());
    assert_eq!(renderer.render_state(), RenderState::Suspended);

    let report = report(vec![], vec![SurfaceFormat::Rgba8Unorm]);
    let state = renderer.create_render_state(&report, 800, 600).unwrap();
    renderer.resume(Ok(state)).unwrap();
    renderer.suspend();
    renderer.set_size(5, 6);
    assert_eq!(renderer.render_state(), RenderState::Suspended);
}

#[test]
fn suspended_renderer_renders_nothing() {
    let mut renderer = TransparentWindowRenderer::new();
    assert_eq!(renderer.frame_phase(), FramePhase::Idle);
    for event in [
        FrameEvent::FrameRequested,
        FrameEvent::TextureAcquired,
        FrameEvent::AcquireFailed,
        FrameEvent::SceneRendered,
        FrameEvent::RenderFailed,
    ] {
        assert!(renderer.render(event).is_empty());
        assert_eq!(renderer.frame_phase(), FramePhase::Idle);
    }
}

#[test]
fn failed_frames_are_skipped_but_the_scene_is_cleared() {
    let mut renderer = TransparentWindowRenderer::new();
    let report = report(vec![], vec![SurfaceFormat::Rgba8Unorm]);
    let state = renderer.create_render_state(&report, 320, 240).unwrap();
    renderer.resume(Ok(state)).unwrap();
    assert_eq!(
        renderer.render(FrameEvent::FrameRequested),
        vec![FrameStep::AcquireSurfaceTexture]
    );
    assert_eq!(renderer.frame_phase(), FramePhase::AwaitingTexture);
    assert!(renderer.render(FrameEvent::AcquireFailed).is_empty());
    assert_eq!(renderer.frame_phase(), FramePhase::Idle);

    assert_eq!(
        renderer.render(FrameEvent::FrameRequested),
        vec![FrameStep::AcquireSurfaceTexture]
    );
    assert_eq!(
        renderer.render(FrameEvent::TextureAcquired)[2],
        FrameStep::RenderScene {
            params: RenderParams {
                base_color: BaseColor { r: 255, g: 255, b: 255, a: 255 },
                width: 320,
                height: 240,
                antialiasing_method: AaMethod::Msaa16,
            },
        }
    );
    assert_eq!(renderer.frame_phase(), FramePhase::AwaitingRender);
    assert_eq!(renderer.render(FrameEvent::RenderFailed), vec![FrameStep::ClearScene]);
    assert_eq!(renderer.frame_phase(), FramePhase::Idle);
    assert_eq!(
        renderer.render(FrameEvent::FrameRequested),
        vec![FrameStep::AcquireSurfaceTexture]
    );
}

#[test]
fn events_out_of_turn_are_passed_over() {
    let mut renderer = TransparentWindowRenderer::new();
    let report = report(vec![], vec![SurfaceFormat::Rgba8Unorm]);
    let state = renderer.create_render_state(&report, 320, 240).unwrap();
    renderer.resume(Ok(state)).unwrap();
    assert_eq!(renderer.frame_phase(), FramePhase::Idle);
    for event in [
        FrameEvent::TextureAcquired,
        FrameEvent::AcquireFailed,
        FrameEvent::SceneRendered,
        FrameEvent::RenderFailed,
    ] {
        assert!(renderer.render(event).is_empty());
        assert_eq!(renderer.frame_phase(), FramePhase::Idle);
    }
    assert_eq!(renderer.render(FrameEvent::FrameRequested).len(), 1);
    for event in [FrameEvent::FrameRequested, FrameEvent::SceneRendered, FrameEvent::RenderFailed] {
        assert!(renderer.render(event).is_empty());
        assert_eq!(renderer.frame_phase(), FramePhase::AwaitingTexture);
    }
    assert_eq!(renderer.render(FrameEvent::TextureAcquired).len(), 3);
    for event in
        [FrameEvent::FrameRequested, FrameEvent::TextureAcquired, FrameEvent::AcquireFailed]
    {
        assert!(renderer.render(event).is_empty());
        assert_eq!(renderer.frame_phase(), FramePhase::AwaitingRender);
    }
    assert_eq!(renderer.render(FrameEvent::SceneRendered).len(), 5);
    assert_eq!(renderer.frame_phase(), FramePhase::Idle);
}

#[test]
fn suspending_gives_up_the_frame_in_hand() {
    let mut renderer = TransparentWindowRenderer::new();
    let report = report(vec![], vec![SurfaceFormat::Rgba8Unorm]);
    let state = renderer.create_render_state(&report, 320, 240).unwrap();
    renderer.resume(Ok(state)).unwrap();
    assert_eq!(renderer.render(FrameEvent::FrameRequested).len(), 1);
    renderer.set_size(10, 10);
    assert_eq!(renderer.frame_phase(), FramePhase::AwaitingTexture);
    renderer.suspend();
    assert_eq!(renderer.frame_phase(), FramePhase::Idle);
    assert!(renderer.render(FrameEvent::TextureAcquired).is_empty());
    renderer.resume(Ok(state)).unwrap();
    assert_eq!(
        renderer.render(FrameEvent::FrameRequested),
        vec![FrameStep::AcquireSurfaceTexture]
    );
}

#[test]
fn resuming_again_replaces_what_was_held() {
    let mut renderer = TransparentWindowRenderer::new();
    let report = report(vec![AlphaMode::PreMultiplied], vec![SurfaceFormat::Rgba8Unorm]);
    let first = renderer.create_render_state(&report, 100, 100).unwrap();
    let second = renderer.create_render_state(&report, 200, 300).unwrap();
    assert_eq!(first.surface_config.alpha_mode, AlphaMode::Auto);
    assert!(!first.transparency_degraded);
    renderer.resume(Ok(first)).unwrap();
    renderer.resume(Ok(second)).unwrap();
    assert_eq!(renderer.render_state(), RenderState::Active(second));
    assert_eq!(renderer.resume(Err(RenderError::DeviceCreation)), Err(RenderError::DeviceCreation));
    assert_eq!(renderer.render_state(), RenderState::Active(second));
}
