use wgpu::TextureFormat;
use xilem_baseview::geometry::PhysicalSize;
use xilem_baseview::render::{
    choose_alpha_mode, choose_surface_format, create_target_texture, setup_step,
    CompositeAlphaMode, PaintAction, PaintEvent, PaintSettings, PresentMode, RenderContext,
    RenderError, SetupAction, SetupEvent, SurfaceFormat, TargetFormat, TextureDimension,
    TextureUsages,
};

const SETTINGS: PaintSettings<f64> = PaintSettings { base_color: (1, 2, 3, 4), scale: 1.5 };

fn size(width: u32, height: u32) -> PhysicalSize {
    PhysicalSize { width, height }
}

fn failed(text: &str) -> Result<(), String> {
    Err(text.to_string())
}

fn message(action: SetupAction) -> String {
    match action {
        SetupAction::Fail(error) => error.message(),
        _ => panic!("not a failure"),
    }
}

#[test]
fn errors_have_their_messages() {
    assert_eq!(RenderError::NoAdapter.message(), "No suitable GPU adapter found");
    assert_eq!(RenderError::Device("a".to_string()).message(), "Device error: a");
    assert_eq!(RenderError::Surface("b".to_string()).message(), "Surface error: b");
    assert_eq!(RenderError::Renderer("".to_string()).message(), "Renderer error: ");
}

#[test]
fn the_first_linear_format_is_chosen() {
    let formats = vec![
        TextureFormat::Bgra8UnormSrgb,
        TextureFormat::Rgba8Unorm,
        TextureFormat::Bgra8Unorm,
    ];
    assert_eq!(
        choose_surface_format(&formats),
        SurfaceFormat::Supported(TextureFormat::Rgba8Unorm)
    );
}

#[test]
fn without_a_linear_format_the_fallback_is_chosen() {
    assert_eq!(choose_surface_format(&vec![]), SurfaceFormat::Bgra8Unorm);
    let formats = vec![TextureFormat::Bgra8UnormSrgb, TextureFormat::Rgba8UnormSrgb];
    assert_eq!(choose_surface_format(&formats), SurfaceFormat::Bgra8Unorm);
}

#[test]
fn premultiplied_alpha_is_preferred() {
    let modes = vec![CompositeAlphaMode::Opaque, CompositeAlphaMode::PreMultiplied];
    assert_eq!(choose_alpha_mode(&modes), CompositeAlphaMode::PreMultiplied);
    let modes = vec![CompositeAlphaMode::Opaque, CompositeAlphaMode::PostMultiplied];
    assert_eq!(choose_alpha_mode(&modes), CompositeAlphaMode::Auto);
    assert_eq!(choose_alpha_mode(&vec![]), CompositeAlphaMode::Auto);
}

#[test]
fn a_surface_is_configured_with_at_least_one_pixel() {
    let context = RenderContext::new(size(0, 0), &vec![], &vec![CompositeAlphaMode::Inherit]);
    assert_eq!(context.surface_config.size, size(1, 1));
    assert_eq!(context.surface_config.format, SurfaceFormat::Bgra8Unorm);
    assert_eq!(context.surface_config.present_mode, PresentMode::AutoVsync);
    assert_eq!(context.surface_config.alpha_mode, CompositeAlphaMode::Auto);
    assert_eq!(context.surface_config.desired_maximum_frame_latency, 2);
    assert!(context.surface_config.view_formats.is_empty());
    assert_eq!(
        context.surface_config.usage,
        TextureUsages {
            copy_src: false,
            copy_dst: false,
            texture_binding: false,
            storage_binding: false,
            render_attachment: true,
            storage_atomic: false,
        }
    );
    assert_eq!(context.target, create_target_texture(size(1, 1)));
}

#[test]
fn the_last_resize_counts() {
    let formats = vec![TextureFormat::Bgra8Unorm];
    let mut context = RenderContext::new(size(10, 20), &formats, &vec![]);
    context.resize(size(0, 5));
    assert_eq!(context.surface_config.size, size(1, 5));
    context.resize(size(30, 40));
    assert_eq!(context.surface_config.size, size(30, 40));
    assert_eq!(context.target, create_target_texture(size(30, 40)));
    assert_eq!(
        context.surface_config.format,
        SurfaceFormat::Supported(TextureFormat::Bgra8Unorm)
    );
}

#[test]
fn the_target_texture_suits_the_renderer() {
    let target = create_target_texture(size(3, 4));
    assert_eq!(target.size, size(3, 4));
    assert_eq!(target.depth_or_array_layers, 1);
    assert_eq!(target.mip_level_count, 1);
    assert_eq!(target.sample_count, 1);
    assert_eq!(target.format, TargetFormat::Rgba8Unorm);
    assert_eq!(target.dimension, TextureDimension::D2);
    assert!(target.view_formats.is_empty());
    assert_eq!(
        target.usage,
        TextureUsages {
            copy_src: false,
            copy_dst: false,
            texture_binding: true,
            storage_binding: true,
            render_attachment: true,
            storage_atomic: false,
        }
    );
}

#[test]
fn painting_renders_then_acquires_then_presents() {
    let context = RenderContext::new(size(10, 20), &vec![], &vec![]);
    assert!(matches!(
        context.render(SETTINGS, PaintEvent::Begin),
        PaintAction::RenderInto { size: s, settings } if s == size(10, 20) && settings == SETTINGS
    ));
    assert!(matches!(context.render(SETTINGS, PaintEvent::Rendered(Ok(()))), PaintAction::AcquireSurface));
    assert!(matches!(
        context.render(SETTINGS, PaintEvent::SurfaceAcquired(Ok(()))),
        PaintAction::BlitAndPresent
    ));
    assert!(matches!(context.render(SETTINGS, PaintEvent::Presented), PaintAction::Done));
}

#[test]
fn painting_fails_with_the_error_of_the_step() {
    let context = RenderContext::new(size(10, 20), &vec![], &vec![]);
    assert!(matches!(
        context.render(SETTINGS, PaintEvent::Rendered(failed("x"))),
        PaintAction::Fail(RenderError::Renderer(text)) if text == "x"
    ));
    assert!(matches!(
        context.render(SETTINGS, PaintEvent::SurfaceAcquired(failed("y"))),
        PaintAction::Fail(RenderError::Surface(text)) if text == "y"
    ));
}

#[test]
fn the_set_up_goes_through_its_steps() {
    let s = size(2, 0);
    assert!(matches!(setup_step(s, SetupEvent::Begin), SetupAction::MakeTarget));
    assert!(matches!(setup_step(s, SetupEvent::TargetMade(Ok(()))), SetupAction::CreateSurface));
    assert!(matches!(
        setup_step(s, SetupEvent::SurfaceCreated(Ok(()))),
        SetupAction::RequestAdapter
    ));
    assert!(matches!(
        setup_step(s, SetupEvent::AdapterRequested(Ok(()))),
        SetupAction::RequestDevice
    ));
    assert!(matches!(
        setup_step(s, SetupEvent::DeviceRequested(Ok(()))),
        SetupAction::ReadCapabilities
    ));
    let read = SetupEvent::CapabilitiesRead {
        formats: vec![TextureFormat::Rgba8UnormSrgb, TextureFormat::Rgba8Unorm],
        alpha_modes: vec![CompositeAlphaMode::PreMultiplied],
    };
    match setup_step(s, read) {
        SetupAction::Configure(context) => {
            assert_eq!(context.surface_config.size, size(2, 1));
            assert_eq!(
                context.surface_config.format,
                SurfaceFormat::Supported(TextureFormat::Rgba8Unorm)
            );
            assert_eq!(context.surface_config.alpha_mode, CompositeAlphaMode::PreMultiplied);
        }
        _ => panic!("not a configuration"),
    }
    assert!(matches!(setup_step(s, SetupEvent::RendererMade(Ok(()))), SetupAction::Done));
}

#[test]
fn the_set_up_fails_with_the_error_of_the_step() {
    let s = size(1, 1);
    assert_eq!(message(setup_step(s, SetupEvent::TargetMade(failed("a")))), "Surface error: a");
    assert_eq!(message(setup_step(s, SetupEvent::SurfaceCreated(failed("b")))), "Surface error: b");
    assert_eq!(
        message(setup_step(s, SetupEvent::AdapterRequested(failed("c")))),
        "Device error: Adapter request failed: c"
    );
    assert_eq!(message(setup_step(s, SetupEvent::DeviceRequested(failed("d")))), "Device error: d");
    assert_eq!(message(setup_step(s, SetupEvent::RendererMade(failed("e")))), "Renderer error: e");
}

#[test]
fn a_whole_set_up_ends_with_the_first_failure_or_with_the_last_step() {
    for failing in 0..6usize {
        let reply = |step: usize| if step == failing { failed("f") } else { Ok(()) };
        let mut steps = 1;
        let mut action = setup_step(size(4, 4), SetupEvent::Begin);
        loop {
            let event = match action {
                SetupAction::MakeTarget => SetupEvent::TargetMade(reply(0)),
                SetupAction::CreateSurface => SetupEvent::SurfaceCreated(reply(1)),
                SetupAction::RequestAdapter => SetupEvent::AdapterRequested(reply(2)),
                SetupAction::RequestDevice => SetupEvent::DeviceRequested(reply(3)),
                SetupAction::ReadCapabilities => SetupEvent::CapabilitiesRead {
                    formats: vec![TextureFormat::Rgba8Unorm],
                    alpha_modes: vec![],
                },
                SetupAction::Configure(_) => SetupEvent::RendererMade(reply(4)),
                SetupAction::Done => {
                    assert_eq!((failing, steps), (5, 7));
                    break;
                }
                SetupAction::Fail(_) => {
                    assert_eq!(steps, [2, 3, 4, 5, 7][failing]);
                    break;
                }
            };
            action = setup_step(size(4, 4), event);
            steps += 1;
        }
    }
}

#[test]
fn a_frame_is_shown_once_if_nothing_fails_and_else_not_at_all() {
    let context = RenderContext::new(size(10, 20), &vec![], &vec![]);
    for (rendered, acquired, shown) in [(true, true, 1), (true, false, 0), (false, true, 0)] {
        let reply = |ok: bool| if ok { Ok(()) } else { failed("f") };
        let mut presented = 0;
        let mut action = context.render(SETTINGS, PaintEvent::Begin);
        loop {
            let event = match action {
                PaintAction::RenderInto { .. } => PaintEvent::Rendered(reply(rendered)),
                PaintAction::AcquireSurface => PaintEvent::SurfaceAcquired(reply(acquired)),
                PaintAction::BlitAndPresent => {
                    presented += 1;
                    PaintEvent::Presented
                }
                PaintAction::Done => {
                    assert!(rendered && acquired);
                    break;
                }
                PaintAction::Fail(error) => {
                    let expected = if rendered { "Surface error: f" } else { "Renderer error: f" };
                    assert_eq!(error.message(), expected);
                    break;
                }
            };
            action = context.render(SETTINGS, event);
        }
        assert_eq!(presented, shown);
    }
}
