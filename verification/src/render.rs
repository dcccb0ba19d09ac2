//! Set-up, resizing and painting of the GPU surface.
//!
//! The renderer's compute shaders need a target texture of a fixed format, which
//! a window's surface need not have. So a frame is rendered into an intermediate
//! texture of the surface's size and then copied to the surface. Device, queue
//! and surface are handled outside; here stands how they are configured, what is
//! done in which order, and which failure becomes which error.

use vstd::prelude::*;

use wgpu::TextureFormat;

use crate::geometry::PhysicalSize;

verus! {

/// Errors that can occur during rendering.
#[derive(Debug)]
pub enum RenderError {
    NoAdapter,
    Device(String),
    Surface(String),
    Renderer(String),
}

/// The two texts, one after the other.
fn joined(prefix: &str, text: &str) -> (whole: String)
    ensures
        whole@ == prefix@ + text@,
{
    let mut whole = prefix.to_owned();
    whole.append(text);
    whole
}

impl RenderError {
    /// The text of the message for this error.
    pub open spec fn spec_message(self) -> Seq<char> {
        match self {
            RenderError::NoAdapter => "No suitable GPU adapter found"@,
            RenderError::Device(text) => "Device error: "@ + text@,
            RenderError::Surface(text) => "Surface error: "@ + text@,
            RenderError::Renderer(text) => "Renderer error: "@ + text@,
        }
    }

    /// The message for this error.
    pub fn message(&self) -> (message: String)
        ensures
            self is NoAdapter ==> message@ == "No suitable GPU adapter found"@,
            self matches RenderError::Device(text) ==> message@ == "Device error: "@ + text@,
            self matches RenderError::Surface(text) ==> message@ == "Surface error: "@ + text@,
            self matches RenderError::Renderer(text) ==> message@ == "Renderer error: "@ + text@,
            message@ == self.spec_message(),
    {
        match self {
            RenderError::NoAdapter => "No suitable GPU adapter found".to_owned(),
            RenderError::Device(text) => joined("Device error: ", text.as_str()),
            RenderError::Surface(text) => joined("Surface error: ", text.as_str()),
            RenderError::Renderer(text) => joined("Renderer error: ", text.as_str()),
        }
    }
}

/// A texture format, as `wgpu` defines it.
#[verifier::external_type_specification]
#[verifier::external_body]
pub struct ExTextureFormat(wgpu::TextureFormat);

/// A texture of the format holds sRGB-encoded colours.
pub uninterp spec fn srgb_encoded(format: TextureFormat) -> bool;

/// `TextureFormat::is_srgb` tells whether the format is one of those that differ
/// from another format only in being sRGB-encoded; it depends on the format
/// alone.
#[verifier::external_body]
pub(crate) fn is_srgb(format: &TextureFormat) -> (srgb: bool)
    ensures
        srgb == srgb_encoded(*format),
{
    format.is_srgb()
}

/// The format of a surface: one that the surface offers, or the one that is used
/// when none of those will do.
#[derive(Clone, Copy, Debug, PartialEq)]
pub enum SurfaceFormat {
    Supported(TextureFormat),
    Bgra8Unorm,
}

/// How a surface is blended with what is behind the window.
#[derive(Clone, Copy, Debug, PartialEq, Eq, Structural)]
pub enum CompositeAlphaMode {
    Auto,
    Opaque,
    PreMultiplied,
    PostMultiplied,
    Inherit,
}

/// When frames are shown.
#[derive(Clone, Copy, Debug, PartialEq, Eq, Structural)]
pub enum PresentMode {
    AutoVsync,
    AutoNoVsync,
}

/// `chosen` is the first of the formats that is not sRGB-encoded or, if all of
/// them are, the fallback.
pub open spec fn is_surface_format(formats: Seq<TextureFormat>, chosen: SurfaceFormat) -> bool {
    match chosen {
        SurfaceFormat::Supported(format) => exists|i: int|
            {
                &&& 0 <= i < formats.len()
                &&& format == #[trigger] formats[i]
                &&& !srgb_encoded(format)
                &&& forall|j: int| 0 <= j < i ==> srgb_encoded(#[trigger] formats[j])
            },
        SurfaceFormat::Bgra8Unorm => forall|i: int|
            0 <= i < formats.len() ==> srgb_encoded(#[trigger] formats[i]),
    }
}

/// The alpha mode for a surface that offers the given ones.
pub open spec fn alpha_mode_for(modes: Seq<CompositeAlphaMode>) -> CompositeAlphaMode {
    if modes.contains(CompositeAlphaMode::PreMultiplied) {
        CompositeAlphaMode::PreMultiplied
    } else {
        CompositeAlphaMode::Auto
    }
}

/// Chooses the format of a surface out of those that it offers.
pub fn choose_surface_format(formats: &Vec<TextureFormat>) -> (chosen: SurfaceFormat)
    ensures
        chosen is Supported <==> exists|i: int|
            0 <= i < formats@.len() && !srgb_encoded(#[trigger] formats@[i]),
        chosen matches SurfaceFormat::Supported(format) ==> formats@.contains(format)
            && !srgb_encoded(format),
        is_surface_format(formats@, chosen),
{
    let mut i: usize = 0;
    while i < formats.len()
        invariant
            i <= formats@.len(),
            forall|j: int| 0 <= j < i ==> srgb_encoded(#[trigger] formats@[j]),
        decreases formats@.len() - i,
    {
        if !is_srgb(&formats[i]) {
            return SurfaceFormat::Supported(formats[i]);
        }
        i += 1;
    }
    SurfaceFormat::Bgra8Unorm
}

/// Chooses the alpha mode of a surface out of those that it offers.
pub fn choose_alpha_mode(modes: &Vec<CompositeAlphaMode>) -> (chosen: CompositeAlphaMode)
    ensures
        chosen is PreMultiplied <==> modes@.contains(CompositeAlphaMode::PreMultiplied),
        chosen is PreMultiplied || chosen is Auto,
        chosen == alpha_mode_for(modes@),
{
    let mut i: usize = 0;
    while i < modes.len()
        invariant
            i <= modes@.len(),
            forall|j: int| 0 <= j < i ==> modes@[j] != CompositeAlphaMode::PreMultiplied,
        decreases modes@.len() - i,
    {
        if modes[i] == CompositeAlphaMode::PreMultiplied {
            assert(modes@.contains(modes@[i as int]));
            return CompositeAlphaMode::PreMultiplied;
        }
        i += 1;
    }
    CompositeAlphaMode::Auto
}

/// What a texture is used for.
#[derive(Clone, Copy, Debug, PartialEq, Eq, Structural)]
pub struct TextureUsages {
    pub copy_src: bool,
    pub copy_dst: bool,
    pub texture_binding: bool,
    pub storage_binding: bool,
    pub render_attachment: bool,
    pub storage_atomic: bool,
}

/// How a surface is configured.
#[derive(Clone, Debug, PartialEq)]
pub struct SurfaceConfiguration {
    pub usage: TextureUsages,
    pub size: PhysicalSize,
    pub format: SurfaceFormat,
    pub present_mode: PresentMode,
    pub alpha_mode: CompositeAlphaMode,
    /// The formats beside its own that the surface can be viewed in.
    pub view_formats: Vec<TextureFormat>,
    pub desired_maximum_frame_latency: u32,
}

/// The format of the intermediate texture.
#[derive(Clone, Copy, Debug, PartialEq, Eq, Structural)]
pub enum TargetFormat {
    Rgba8Unorm,
}

/// How many dimensions a texture has.
#[derive(Clone, Copy, Debug, PartialEq, Eq, Structural)]
pub enum TextureDimension {
    D1,
    D2,
    D3,
}

/// The intermediate texture.
#[derive(Clone, Debug, PartialEq)]
pub struct TargetTexture {
    pub size: PhysicalSize,
    pub depth_or_array_layers: u32,
    pub mip_level_count: u32,
    pub sample_count: u32,
    pub dimension: TextureDimension,
    pub format: TargetFormat,
    pub usage: TextureUsages,
    /// The formats beside its own that the texture can be viewed in.
    pub view_formats: Vec<TextureFormat>,
}

/// A surface is only rendered to.
pub open spec fn spec_surface_usage() -> TextureUsages {
    TextureUsages {
        copy_src: false,
        copy_dst: false,
        texture_binding: false,
        storage_binding: false,
        render_attachment: true,
        storage_atomic: false,
    }
}

/// The intermediate texture is a storage for the renderer, a source of copies and
/// something to render to.
pub open spec fn spec_target_usage() -> TextureUsages {
    TextureUsages {
        copy_src: false,
        copy_dst: false,
        texture_binding: true,
        storage_binding: true,
        render_attachment: true,
        storage_atomic: false,
    }
}

impl TargetTexture {
    /// This is the intermediate texture of the given size: two-dimensional, with
    /// one layer, level and sample, and viewed in its own format only.
    pub open spec fn of_size(self, size: PhysicalSize) -> bool {
        &&& self.size == size
        &&& self.depth_or_array_layers == 1
        &&& self.mip_level_count == 1
        &&& self.sample_count == 1
        &&& self.dimension == TextureDimension::D2
        &&& self.format == TargetFormat::Rgba8Unorm
        &&& self.usage == spec_target_usage()
        &&& self.view_formats@ == Seq::<TextureFormat>::empty()
    }
}

/// Describes the intermediate texture of the given size.
pub fn create_target_texture(size: PhysicalSize) -> (target: TargetTexture)
    ensures
        target.size.width == size.width,
        target.size.height == size.height,
        target.dimension is D2,
        target.view_formats@.len() == 0,
        target.usage.texture_binding && target.usage.storage_binding
            && target.usage.render_attachment,
        target.of_size(size),
{
    TargetTexture {
        size,
        depth_or_array_layers: 1,
        mip_level_count: 1,
        sample_count: 1,
        dimension: TextureDimension::D2,
        format: TargetFormat::Rgba8Unorm,
        usage: TextureUsages {
            copy_src: false,
            copy_dst: false,
            texture_binding: true,
            storage_binding: true,
            render_attachment: true,
            storage_atomic: false,
        },
        view_formats: Vec::new(),
    }
}

/// The configuration of a window's surface and of its intermediate texture.
pub struct RenderContext {
    pub surface_config: SurfaceConfiguration,
    pub target: TargetTexture,
}

/// What a frame is prepared with: the colour behind the widgets, as red, green,
/// blue and opacity, and the window's scale factor.
#[derive(Debug, PartialEq)]
pub struct PaintSettings<C> {
    pub base_color: (u8, u8, u8, u8),
    pub scale: C,
}

impl<C: Copy> Copy for PaintSettings<C> {

}

impl<C: Copy> Clone for PaintSettings<C> {
    fn clone(&self) -> (copy: Self)
        ensures
            copy == *self,
    {
        *self
    }
}

/// What happened while a frame was painted. A failure comes with its text.
pub enum PaintEvent {
    /// The frame is to be painted.
    Begin,
    /// The frame was rendered into the intermediate texture.
    Rendered(Result<(), String>),
    /// The surface's texture was acquired.
    SurfaceAcquired(Result<(), String>),
    /// The frame was copied to the surface and shown.
    Presented,
}

/// What to do next to paint a frame.
pub enum PaintAction<C> {
    /// Prepare the frame with the given size and settings, and render it into the
    /// intermediate texture.
    RenderInto { size: PhysicalSize, settings: PaintSettings<C> },
    /// Acquire the surface's texture.
    AcquireSurface,
    /// Copy the intermediate texture to the surface and show it.
    BlitAndPresent,
    /// The frame was painted.
    Done,
    /// The frame cannot be painted.
    Fail(RenderError),
}

impl RenderContext {
    /// The intermediate texture has the size of the surface, and both have at
    /// least one pixel.
    pub open spec fn well_formed(self) -> bool {
        &&& self.surface_config.size.width >= 1
        &&& self.surface_config.size.height >= 1
        &&& self.target.of_size(self.surface_config.size)
    }

    /// This is the context for a surface of the given size with the given
    /// formats and alpha modes.
    pub open spec fn suits(
        self,
        size: PhysicalSize,
        formats: Seq<TextureFormat>,
        alpha_modes: Seq<CompositeAlphaMode>,
    ) -> bool {
        &&& self.surface_config.usage == spec_surface_usage()
        &&& self.surface_config.size == size.spec_at_least_one()
        &&& is_surface_format(formats, self.surface_config.format)
        &&& self.surface_config.present_mode == PresentMode::AutoVsync
        &&& self.surface_config.alpha_mode == alpha_mode_for(alpha_modes)
        &&& self.surface_config.view_formats@ == Seq::<TextureFormat>::empty()
        &&& self.surface_config.desired_maximum_frame_latency == 2
        &&& self.target.of_size(size.spec_at_least_one())
    }

    /// `after` is this context after its surface was resized: nothing but the size
    /// of the surface and the intermediate texture is new.
    pub open spec fn resized(self, size: PhysicalSize, after: RenderContext) -> bool {
        &&& after.surface_config == (SurfaceConfiguration {
            size: size.spec_at_least_one(),
            ..self.surface_config
        })
        &&& after.target.of_size(size.spec_at_least_one())
    }

    /// What follows from an event while a frame with the given settings is
    /// painted.
    pub open spec fn paint_action<C>(
        self,
        settings: PaintSettings<C>,
        event: PaintEvent,
    ) -> PaintAction<C> {
        match event {
            PaintEvent::Begin => PaintAction::RenderInto {
                size: self.surface_config.size,
                settings,
            },
            PaintEvent::Rendered(Ok(_)) => PaintAction::AcquireSurface,
            PaintEvent::Rendered(Err(text)) => PaintAction::Fail(RenderError::Renderer(text)),
            PaintEvent::SurfaceAcquired(Ok(_)) => PaintAction::BlitAndPresent,
            PaintEvent::SurfaceAcquired(Err(text)) => PaintAction::Fail(RenderError::Surface(text)),
            PaintEvent::Presented => PaintAction::Done,
        }
    }

    /// Configures a surface of the given size in physical pixels that offers the
    /// given formats and alpha modes, and its intermediate texture.
    pub fn new(
        size: PhysicalSize,
        formats: &Vec<TextureFormat>,
        alpha_modes: &Vec<CompositeAlphaMode>,
    ) -> (context: RenderContext)
        ensures
            context.surface_config.size.width >= 1 && context.surface_config.size.height >= 1,
            size.width >= 1 ==> context.surface_config.size.width == size.width,
            size.height >= 1 ==> context.surface_config.size.height == size.height,
            size.width == 0 ==> context.surface_config.size.width == 1,
            size.height == 0 ==> context.surface_config.size.height == 1,
            context.target.size.width == context.surface_config.size.width,
            context.target.size.height == context.surface_config.size.height,
            context.suits(size, formats@, alpha_modes@),
            context.well_formed(),
    {
        let size = size.at_least_one();
        RenderContext {
            surface_config: SurfaceConfiguration {
                usage: TextureUsages {
                    copy_src: false,
                    copy_dst: false,
                    texture_binding: false,
                    storage_binding: false,
                    render_attachment: true,
                    storage_atomic: false,
                },
                size,
                format: choose_surface_format(formats),
                present_mode: PresentMode::AutoVsync,
                alpha_mode: choose_alpha_mode(alpha_modes),
                view_formats: Vec::new(),
                desired_maximum_frame_latency: 2,
            },
            target: create_target_texture(size),
        }
    }

    /// Takes in a new size in physical pixels. The surface has to be configured
    /// and the intermediate texture created anew.
    pub fn resize(&mut self, size: PhysicalSize)
        ensures
            final(self).surface_config.size.width >= 1 && final(self).surface_config.size.height >= 1,
            size.width >= 1 ==> final(self).surface_config.size.width == size.width,
            size.height >= 1 ==> final(self).surface_config.size.height == size.height,
            size.width == 0 ==> final(self).surface_config.size.width == 1,
            size.height == 0 ==> final(self).surface_config.size.height == 1,
            final(self).target.size.width == final(self).surface_config.size.width,
            final(self).target.size.height == final(self).surface_config.size.height,
            final(self).surface_config.format == old(self).surface_config.format,
            final(self).surface_config.usage == old(self).surface_config.usage,
            final(self).surface_config.present_mode == old(self).surface_config.present_mode,
            final(self).surface_config.alpha_mode == old(self).surface_config.alpha_mode,
            final(self).surface_config.view_formats == old(self).surface_config.view_formats,
            final(self).surface_config.desired_maximum_frame_latency == old(
                self,
            ).surface_config.desired_maximum_frame_latency,
            old(self).resized(size, *final(self)),
            final(self).well_formed(),
    {
        let size = size.at_least_one();
        self.surface_config.size = size;
        self.target = create_target_texture(size);
    }

    /// Goes on with painting a frame with the given settings.
    pub fn render<C>(&self, settings: PaintSettings<C>, event: PaintEvent) -> (action: PaintAction<
        C,
    >)
        ensures
            action is RenderInto <==> event is Begin,
            action matches PaintAction::RenderInto { size, settings: given } ==> {
                &&& size.width == self.surface_config.size.width
                &&& size.height == self.surface_config.size.height
                &&& given == settings
            },
            action is AcquireSurface <==> event matches PaintEvent::Rendered(Ok(_)),
            action is BlitAndPresent <==> event matches PaintEvent::SurfaceAcquired(Ok(_)),
            action is Done <==> event is Presented,
            event matches PaintEvent::Rendered(Err(text)) ==> action == PaintAction::<C>::Fail(
                RenderError::Renderer(text),
            ),
            event matches PaintEvent::SurfaceAcquired(Err(text)) ==> action == PaintAction::<
                C,
            >::Fail(RenderError::Surface(text)),
            action == self.paint_action(settings, event),
    {
        match event {
            PaintEvent::Begin => PaintAction::RenderInto {
                size: self.surface_config.size,
                settings,
            },
            PaintEvent::Rendered(Ok(_)) => PaintAction::AcquireSurface,
            PaintEvent::Rendered(Err(text)) => PaintAction::Fail(RenderError::Renderer(text)),
            PaintEvent::SurfaceAcquired(Ok(_)) => PaintAction::BlitAndPresent,
            PaintEvent::SurfaceAcquired(Err(text)) => PaintAction::Fail(RenderError::Surface(text)),
            PaintEvent::Presented => PaintAction::Done,
        }
    }
}

/// What happened while a render context was set up. A failure comes with its
/// text.
pub enum SetupEvent {
    /// The set-up begins.
    Begin,
    /// The window was made a target for a surface.
    TargetMade(Result<(), String>),
    /// The surface was created.
    SurfaceCreated(Result<(), String>),
    /// An adapter for the surface was requested.
    AdapterRequested(Result<(), String>),
    /// A device and its queue were requested.
    DeviceRequested(Result<(), String>),
    /// The surface's capabilities were read.
    CapabilitiesRead { formats: Vec<TextureFormat>, alpha_modes: Vec<CompositeAlphaMode> },
    /// The surface was configured and the renderer was made.
    RendererMade(Result<(), String>),
}

/// What to do next to set up a render context.
pub enum SetupAction {
    /// Make the window a target for a surface.
    MakeTarget,
    /// Create the surface.
    CreateSurface,
    /// Request an adapter that can serve the surface.
    RequestAdapter,
    /// Request a device and its queue.
    RequestDevice,
    /// Read what the surface can do.
    ReadCapabilities,
    /// Configure the surface, create the intermediate texture, and make the
    /// renderer.
    Configure(RenderContext),
    /// The render context is set up.
    Done,
    /// The render context cannot be set up.
    Fail(RenderError),
}

/// `action` follows from `event` in the set-up of a context for a surface of the
/// given size.
pub open spec fn setup_follows(
    size: PhysicalSize,
    event: SetupEvent,
    action: SetupAction,
) -> bool {
    match event {
        SetupEvent::Begin => action is MakeTarget,
        SetupEvent::TargetMade(Ok(_)) => action is CreateSurface,
        SetupEvent::TargetMade(Err(text)) => action == SetupAction::Fail(
            RenderError::Surface(text),
        ),
        SetupEvent::SurfaceCreated(Ok(_)) => action is RequestAdapter,
        SetupEvent::SurfaceCreated(Err(text)) => action == SetupAction::Fail(
            RenderError::Surface(text),
        ),
        SetupEvent::AdapterRequested(Ok(_)) => action is RequestDevice,
        SetupEvent::AdapterRequested(Err(text)) => {
            &&& action matches SetupAction::Fail(RenderError::Device(message))
            &&& message@ == "Adapter request failed: "@ + text@
        },
        SetupEvent::DeviceRequested(Ok(_)) => action is ReadCapabilities,
        SetupEvent::DeviceRequested(Err(text)) => action == SetupAction::Fail(
            RenderError::Device(text),
        ),
        SetupEvent::CapabilitiesRead { formats, alpha_modes } => {
            &&& action matches SetupAction::Configure(context)
            &&& context.suits(size, formats@, alpha_modes@)
            &&& context.well_formed()
        },
        SetupEvent::RendererMade(Ok(_)) => action is Done,
        SetupEvent::RendererMade(Err(text)) => action == SetupAction::Fail(
            RenderError::Renderer(text),
        ),
    }
}

/// Goes on with setting up a render context for a surface of the given size.
pub fn setup_step(size: PhysicalSize, event: SetupEvent) -> (action: SetupAction)
    ensures
        setup_follows(size, event, action),
{
    match event {
        SetupEvent::Begin => SetupAction::MakeTarget,
        SetupEvent::TargetMade(Ok(_)) => SetupAction::CreateSurface,
        SetupEvent::TargetMade(Err(text)) => SetupAction::Fail(RenderError::Surface(text)),
        SetupEvent::SurfaceCreated(Ok(_)) => SetupAction::RequestAdapter,
        SetupEvent::SurfaceCreated(Err(text)) => SetupAction::Fail(RenderError::Surface(text)),
        SetupEvent::AdapterRequested(Ok(_)) => SetupAction::RequestDevice,
        SetupEvent::AdapterRequested(Err(text)) => SetupAction::Fail(
            RenderError::Device(joined("Adapter request failed: ", text.as_str())),
        ),
        SetupEvent::DeviceRequested(Ok(_)) => SetupAction::ReadCapabilities,
        SetupEvent::DeviceRequested(Err(text)) => SetupAction::Fail(RenderError::Device(text)),
        SetupEvent::CapabilitiesRead { formats, alpha_modes } => SetupAction::Configure(
            RenderContext::new(size, &formats, &alpha_modes),
        ),
        SetupEvent::RendererMade(Ok(_)) => SetupAction::Done,
        SetupEvent::RendererMade(Err(text)) => SetupAction::Fail(RenderError::Renderer(text)),
    }
}

/// Only the last of several resizes counts.
pub proof fn law_last_resize_counts(
    context: RenderContext,
    first: PhysicalSize,
    between: RenderContext,
    last: PhysicalSize,
    end: RenderContext,
)
    requires
        context.resized(first, between),
        between.resized(last, end),
    ensures
        context.resized(last, end),
{
}

/// How the outside answers while a frame is painted: whether it could be
/// rendered, and whether the surface's texture could be acquired.
pub struct PaintReplies {
    pub rendered: Result<(), String>,
    pub acquired: Result<(), String>,
}

impl PaintReplies {
    /// The outcome of an action; the end of the painting has none.
    pub open spec fn to<C>(self, action: PaintAction<C>) -> Option<PaintEvent> {
        match action {
            PaintAction::RenderInto { .. } => Some(PaintEvent::Rendered(self.rendered)),
            PaintAction::AcquireSurface => Some(PaintEvent::SurfaceAcquired(self.acquired)),
            PaintAction::BlitAndPresent => Some(PaintEvent::Presented),
            PaintAction::Done | PaintAction::Fail(_) => None,
        }
    }
}

impl RenderContext {
    /// The actions that painting a frame with the given settings takes from `event`
    /// on, up to `limit` of them.
    pub open spec fn paint_run<C>(
        self,
        settings: PaintSettings<C>,
        event: PaintEvent,
        replies: PaintReplies,
        limit: nat,
    ) -> Seq<PaintAction<C>>
        decreases limit,
    {
        if limit == 0 {
            Seq::empty()
        } else {
            let action = self.paint_action(settings, event);
            match replies.to(action) {
                Some(outcome) => seq![action] + self.paint_run(
                    settings,
                    outcome,
                    replies,
                    (limit - 1) as nat,
                ),
                None => seq![action],
            }
        }
    }
}

/// Painting a frame renders it at the surface's size and with the settings it was
/// begun with, acquires the surface's texture and shows the frame, in this order
/// and each once; the first of them that fails ends it, with a renderer error or a
/// surface error.
pub proof fn law_frame_is_painted_in_order<C>(
    context: RenderContext,
    settings: PaintSettings<C>,
    replies: PaintReplies,
    limit: nat,
)
    requires
        limit >= 4,
    ensures
        ({
            let begin = PaintAction::RenderInto { size: context.surface_config.size, settings };
            context.paint_run(settings, PaintEvent::Begin, replies, limit) == match (
                replies.rendered,
                replies.acquired,
            ) {
                (Ok(_), Ok(_)) => seq![
                    begin,
                    PaintAction::AcquireSurface,
                    PaintAction::BlitAndPresent,
                    PaintAction::Done,
                ],
                (Ok(_), Err(text)) => seq![
                    begin,
                    PaintAction::AcquireSurface,
                    PaintAction::Fail(RenderError::Surface(text)),
                ],
                (Err(text), _) => seq![begin, PaintAction::Fail(RenderError::Renderer(text))],
            }
        }),
{
    reveal_with_fuel(RenderContext::paint_run, 5);
}

/// The event tells of a failure.
pub open spec fn is_failure(event: SetupEvent) -> bool {
    match event {
        SetupEvent::TargetMade(Err(_)) => true,
        SetupEvent::SurfaceCreated(Err(_)) => true,
        SetupEvent::AdapterRequested(Err(_)) => true,
        SetupEvent::DeviceRequested(Err(_)) => true,
        SetupEvent::RendererMade(Err(_)) => true,
        _ => false,
    }
}

/// The set-up fails at the first failure, and only then: with a surface error
/// for the window and its surface, with a device error for adapter and device,
/// and with a renderer error for the renderer.
pub proof fn law_setup_fails_on_failure(size: PhysicalSize, event: SetupEvent, action: SetupAction)
    requires
        setup_follows(size, event, action),
    ensures
        action is Fail <==> is_failure(event),
        action matches SetupAction::Fail(error) ==> {
            &&& error is Surface <==> (event is TargetMade || event is SurfaceCreated)
            &&& error is Device <==> (event is AdapterRequested || event is DeviceRequested)
            &&& error is Renderer <==> event is RendererMade
        },
{
}

/// The event is an outcome of the action.
pub open spec fn answers(event: SetupEvent, action: SetupAction) -> bool {
    match action {
        SetupAction::MakeTarget => event is TargetMade,
        SetupAction::CreateSurface => event is SurfaceCreated,
        SetupAction::RequestAdapter => event is AdapterRequested,
        SetupAction::RequestDevice => event is DeviceRequested,
        SetupAction::ReadCapabilities => event is CapabilitiesRead,
        SetupAction::Configure(_) => event is RendererMade,
        SetupAction::Done | SetupAction::Fail(_) => false,
    }
}

/// The events and actions are those of a set-up, so far: it begins, each action
/// follows from its event, and each further event is an outcome of the action
/// before it.
pub open spec fn is_setup(
    size: PhysicalSize,
    events: Seq<SetupEvent>,
    actions: Seq<SetupAction>,
) -> bool {
    &&& events.len() == actions.len()
    &&& events.len() > 0
    &&& events[0] is Begin
    &&& forall|i: int|
        0 <= i < events.len() ==> setup_follows(size, #[trigger] events[i], actions[i])
    &&& forall|i: int|
        0 < i < events.len() ==> answers(#[trigger] events[i], actions[i - 1])
}

/// A set-up takes at most seven steps. It ends well exactly when all of them were
/// taken and none failed, and by then the surface was configured to suit what it
/// offers; it ends badly at the first failure.
pub proof fn law_setup_ends(
    size: PhysicalSize,
    events: Seq<SetupEvent>,
    actions: Seq<SetupAction>,
)
    requires
        is_setup(size, events, actions),
    ensures
        events.len() <= 7,
        forall|i: int| 0 <= i < events.len() - 1 ==> !is_failure(#[trigger] events[i]),
        actions.last() is Fail <==> is_failure(events.last()),
        actions.last() is Done <==> events.len() == 7 && !is_failure(events.last()),
        events.len() >= 6 ==> {
            &&& events[5] matches SetupEvent::CapabilitiesRead { formats, alpha_modes }
            &&& actions[5] matches SetupAction::Configure(context)
            &&& context.well_formed()
            &&& context.suits(size, formats@, alpha_modes@)
        },
{
    let n = events.len() as int;
    assert forall|i: int| 0 <= i < n - 1 implies !is_failure(#[trigger] events[i]) by {
        assert(answers(events[i + 1], actions[i]));
    }
    if n > 1 {
        assert(events[1] is TargetMade);
    }
    if n > 2 {
        assert(events[2] is SurfaceCreated);
    }
    if n > 3 {
        assert(events[3] is AdapterRequested);
    }
    if n > 4 {
        assert(events[4] is DeviceRequested);
    }
    if n > 5 {
        assert(events[5] is CapabilitiesRead);
    }
    if n > 6 {
        assert(events[6] is RendererMade);
    }
    if n > 7 {
        assert(answers(events[7], actions[6]));
    }
}

/// If a surface offers a format that is not sRGB-encoded, it gets one of those it
/// offers, and one that is not sRGB-encoded.
pub proof fn law_offered_linear_format_is_used(formats: Seq<TextureFormat>, chosen: SurfaceFormat)
    requires
        is_surface_format(formats, chosen),
    ensures
        (exists|i: int| 0 <= i < formats.len() && !srgb_encoded(#[trigger] formats[i])) <==> chosen
            is Supported,
        chosen matches SurfaceFormat::Supported(format) ==> formats.contains(format)
            && !srgb_encoded(format),
{
}

/// The message for an error ends with the text that the error came with, after a
/// prefix that tells its kind; so the text can be read back from the message, and
/// errors with the same text but of different kinds have different messages.
pub proof fn law_messages_tell_kind_and_text(text: String)
    ensures
        RenderError::Device(text).spec_message() == "Device error: "@ + text@,
        RenderError::Surface(text).spec_message() == "Surface error: "@ + text@,
        RenderError::Renderer(text).spec_message() == "Renderer error: "@ + text@,
        RenderError::Device(text).spec_message().skip(14) == text@,
        RenderError::Surface(text).spec_message().skip(15) == text@,
        RenderError::Renderer(text).spec_message().skip(16) == text@,
        RenderError::Device(text).spec_message() != RenderError::Surface(text).spec_message(),
        RenderError::Device(text).spec_message() != RenderError::Renderer(text).spec_message(),
        RenderError::Surface(text).spec_message() != RenderError::Renderer(text).spec_message(),
        RenderError::NoAdapter.spec_message() == "No suitable GPU adapter found"@,
{
    reveal_strlit("Device error: ");
    reveal_strlit("Surface error: ");
    reveal_strlit("Renderer error: ");
    assert(("Device error: "@ + text@).skip(14) =~= text@);
    assert(("Surface error: "@ + text@).skip(15) =~= text@);
    assert(("Renderer error: "@ + text@).skip(16) =~= text@);
    assert(("Device error: "@ + text@).len() == 14 + text@.len());
    assert(("Surface error: "@ + text@).len() == 15 + text@.len());
    assert(("Renderer error: "@ + text@).len() == 16 + text@.len());
}

/// A surface gets the first of the formats it offers that is not sRGB-encoded: no
/// other such format is offered before it.
pub proof fn law_first_linear_format_is_used(
    formats: Seq<TextureFormat>,
    chosen: SurfaceFormat,
    i: int,
)
    requires
        is_surface_format(formats, chosen),
        0 <= i < formats.len(),
        !srgb_encoded(formats[i]),
    ensures
        exists|j: int|
            0 <= j <= i && chosen == SurfaceFormat::Supported(#[trigger] formats[j]),
{
    if let SurfaceFormat::Supported(format) = chosen {
        let j = choose|j: int|
            {
                &&& 0 <= j < formats.len()
                &&& format == #[trigger] formats[j]
                &&& !srgb_encoded(format)
                &&& forall|k: int| 0 <= k < j ==> srgb_encoded(#[trigger] formats[k])
            };
        assert(chosen == SurfaceFormat::Supported(formats[j]));
    }
}

/// A surface is blended with premultiplied alpha exactly when it offers that,
/// whatever else it offers and in whatever order, and automatically otherwise.
pub proof fn law_premultiplied_alpha_is_used_if_offered(modes: Seq<CompositeAlphaMode>, i: int)
    ensures
        0 <= i < modes.len() && modes[i] is PreMultiplied ==> alpha_mode_for(modes)
            is PreMultiplied,
        alpha_mode_for(modes) is PreMultiplied ==> exists|j: int|
            0 <= j < modes.len() && (#[trigger] modes[j]) is PreMultiplied,
        alpha_mode_for(modes) !is PreMultiplied ==> alpha_mode_for(modes) is Auto,
{
    if alpha_mode_for(modes) is PreMultiplied {
        let j = choose|j: int|
            0 <= j < modes.len() && modes[j] == CompositeAlphaMode::PreMultiplied;
        assert(modes[j] is PreMultiplied);
    }
}

/// The intermediate texture is as wide and as high as the surface, when the context
/// is set up and after every resize, and so is the frame that is rendered into it.
pub proof fn law_target_has_the_size_of_the_surface<C>(
    context: RenderContext,
    size: PhysicalSize,
    formats: Seq<TextureFormat>,
    alpha_modes: Seq<CompositeAlphaMode>,
    resized: RenderContext,
    settings: PaintSettings<C>,
)
    ensures
        context.suits(size, formats, alpha_modes) || context.well_formed() ==> {
            &&& context.target.size.width == context.surface_config.size.width
            &&& context.target.size.height == context.surface_config.size.height
            &&& context.paint_action(settings, PaintEvent::Begin) matches PaintAction::RenderInto {
                size: rendered,
                settings: given,
            }
            &&& rendered.width == context.target.size.width
            &&& rendered.height == context.target.size.height
            &&& given.scale == settings.scale
            &&& given.base_color == settings.base_color
        },
        context.resized(size, resized) ==> {
            &&& resized.target.size.width == resized.surface_config.size.width
            &&& resized.target.size.height == resized.surface_config.size.height
            &&& resized.paint_action(settings, PaintEvent::Begin) matches PaintAction::RenderInto {
                size: rendered,
                settings: given,
            }
            &&& rendered.width == resized.target.size.width
            &&& rendered.height == resized.target.size.height
        },
{
}

/// A surface is as wide and as high as was asked for, when it is set up and when it
/// is resized, but for an extent of nothing, which becomes one pixel.
pub proof fn law_surface_has_the_size_asked_for(
    context: RenderContext,
    size: PhysicalSize,
    formats: Seq<TextureFormat>,
    alpha_modes: Seq<CompositeAlphaMode>,
    resized: RenderContext,
)
    ensures
        context.suits(size, formats, alpha_modes) ==> {
            &&& size.width >= 1 ==> context.surface_config.size.width == size.width
            &&& size.height >= 1 ==> context.surface_config.size.height == size.height
            &&& size.width == 0 ==> context.surface_config.size.width == 1
            &&& size.height == 0 ==> context.surface_config.size.height == 1
        },
        context.resized(size, resized) ==> {
            &&& size.width >= 1 ==> resized.surface_config.size.width == size.width
            &&& size.height >= 1 ==> resized.surface_config.size.height == size.height
            &&& size.width == 0 ==> resized.surface_config.size.width == 1
            &&& size.height == 0 ==> resized.surface_config.size.height == 1
        },
{
}

/// A resize changes nothing of the surface but its size, and a surface that was set
/// up is only rendered to, waits for the display, is at most two frames ahead, and
/// is viewed in its own format only.
pub proof fn law_surface_keeps_its_configuration(
    context: RenderContext,
    size: PhysicalSize,
    formats: Seq<TextureFormat>,
    alpha_modes: Seq<CompositeAlphaMode>,
    resized: RenderContext,
)
    ensures
        context.resized(size, resized) ==> {
            &&& resized.surface_config.usage == context.surface_config.usage
            &&& resized.surface_config.format == context.surface_config.format
            &&& resized.surface_config.present_mode == context.surface_config.present_mode
            &&& resized.surface_config.alpha_mode == context.surface_config.alpha_mode
            &&& resized.surface_config.view_formats == context.surface_config.view_formats
            &&& resized.surface_config.desired_maximum_frame_latency
                == context.surface_config.desired_maximum_frame_latency
        },
        context.suits(size, formats, alpha_modes) ==> {
            let config = context.surface_config;
            &&& config.usage.render_attachment
            &&& !config.usage.copy_src && !config.usage.copy_dst && !config.usage.texture_binding
                && !config.usage.storage_binding && !config.usage.storage_atomic
            &&& config.present_mode is AutoVsync
            &&& config.view_formats@.len() == 0
            &&& config.desired_maximum_frame_latency == 2
            &&& is_surface_format(formats, config.format)
            &&& config.alpha_mode is PreMultiplied <==> alpha_modes.contains(
                CompositeAlphaMode::PreMultiplied,
            )
            &&& config.alpha_mode is PreMultiplied || config.alpha_mode is Auto
        },
{
}

/// The intermediate texture of a context is a flat one of a single layer, level and
/// sample, which the renderer can store to, and which can be rendered to and copied
/// from by a shader, and nothing else.
pub proof fn law_target_suits_the_renderer(target: TargetTexture, size: PhysicalSize)
    requires
        target.of_size(size),
    ensures
        target.size.width == size.width && target.size.height == size.height,
        target.depth_or_array_layers == 1 && target.mip_level_count == 1 && target.sample_count
            == 1,
        target.dimension is D2,
        target.format is Rgba8Unorm,
        target.usage.storage_binding && target.usage.texture_binding
            && target.usage.render_attachment,
        !target.usage.copy_src && !target.usage.copy_dst && !target.usage.storage_atomic,
        target.view_formats@.len() == 0,
{
}

/// One step of painting: what begins is rendered, what was rendered is given a place
/// on the surface, what has a place is shown, what was shown is done; and each
/// failure ends the painting with its own text, as an error of its kind.
pub proof fn law_painting_goes_on_or_fails<C>(
    context: RenderContext,
    settings: PaintSettings<C>,
    event: PaintEvent,
)
    ensures
        ({
            let action = context.paint_action(settings, event);
            &&& action is RenderInto <==> event is Begin
            &&& action is AcquireSurface <==> (event matches PaintEvent::Rendered(Ok(_)))
            &&& action is BlitAndPresent <==> (event matches PaintEvent::SurfaceAcquired(Ok(_)))
            &&& action is Done <==> event is Presented
            &&& event matches PaintEvent::Rendered(Err(text)) ==> (action matches PaintAction::Fail(
                RenderError::Renderer(given),
            ) && given == text)
            &&& event matches PaintEvent::SurfaceAcquired(Err(text)) ==> (action
                matches PaintAction::Fail(RenderError::Surface(given)) && given == text)
        }),
{
}

/// One step of a set-up: each success leads to the next step, and each failure ends
/// the set-up with its own text, as an error of its kind; that of the adapter says
/// that the request failed.
pub proof fn law_setup_goes_on_or_fails(size: PhysicalSize, event: SetupEvent, action: SetupAction)
    requires
        setup_follows(size, event, action),
    ensures
        action is MakeTarget <==> event is Begin,
        action is CreateSurface <==> event matches SetupEvent::TargetMade(Ok(_)),
        action is RequestAdapter <==> event matches SetupEvent::SurfaceCreated(Ok(_)),
        action is RequestDevice <==> event matches SetupEvent::AdapterRequested(Ok(_)),
        action is ReadCapabilities <==> event matches SetupEvent::DeviceRequested(Ok(_)),
        action is Configure <==> event is CapabilitiesRead,
        action is Done <==> event matches SetupEvent::RendererMade(Ok(_)),
        event matches SetupEvent::TargetMade(Err(text)) ==> (action matches SetupAction::Fail(
            RenderError::Surface(given),
        ) && given == text),
        event matches SetupEvent::SurfaceCreated(Err(text)) ==> (action matches SetupAction::Fail(
            RenderError::Surface(given),
        ) && given == text),
        event matches SetupEvent::AdapterRequested(Err(text)) ==> (action matches SetupAction::Fail(
            RenderError::Device(given),
        ) && given@ == "Adapter request failed: "@ + text@),
        event matches SetupEvent::DeviceRequested(Err(text)) ==> (action matches SetupAction::Fail(
            RenderError::Device(given),
        ) && given == text),
        event matches SetupEvent::RendererMade(Err(text)) ==> (action matches SetupAction::Fail(
            RenderError::Renderer(given),
        ) && given == text),
{
}

/// The context that a set-up configures the surface with has the size asked for, a
/// texture of that size to render into, and a format and a blending that the surface
/// offers, as far as it offers suitable ones.
pub proof fn law_setup_configures_what_was_asked_for(
    size: PhysicalSize,
    formats: Vec<TextureFormat>,
    alpha_modes: Vec<CompositeAlphaMode>,
    action: SetupAction,
    context: RenderContext,
)
    requires
        setup_follows(size, (SetupEvent::CapabilitiesRead { formats, alpha_modes }), action),
        action == SetupAction::Configure(context),
    ensures
        size.width >= 1 ==> context.surface_config.size.width == size.width,
        size.height >= 1 ==> context.surface_config.size.height == size.height,
        size.width == 0 ==> context.surface_config.size.width == 1,
        size.height == 0 ==> context.surface_config.size.height == 1,
        context.target.size.width == context.surface_config.size.width,
        context.target.size.height == context.surface_config.size.height,
        context.surface_config.format matches SurfaceFormat::Supported(format) ==> formats@.contains(
            format,
        ) && !srgb_encoded(format),
        context.surface_config.format is Bgra8Unorm ==> forall|i: int|
            0 <= i < formats@.len() ==> srgb_encoded(#[trigger] formats@[i]),
        context.surface_config.alpha_mode is PreMultiplied <==> alpha_modes@.contains(
            CompositeAlphaMode::PreMultiplied,
        ),
{
}

} // verus!
