//! The swapchain lifecycle: the chain of presentable images, the render
//! targets built on them, and their wholesale rebuilding.

use crate::geometry::{Extent, ViewportState};
use crate::surface::{
    CompositeAlpha, CreateError, PresentMode, SurfaceCapabilities, SwapchainRequest,
};
use vstd::prelude::*;
use vulkano::format::Format;

verus! {

/// One presentable image of a swapchain.
#[derive(Clone, Copy, Debug, PartialEq, Eq, Structural)]
pub struct SwapchainImage {
    /// The platform's handle of the image.
    pub handle: u64,
    pub dimensions: Extent,
    /// Generation of the swapchain that the image belongs to.
    pub generation: u64,
}

/// The attachment layout that render targets are built for: one color
/// attachment, cleared when a pass begins and stored when it ends.
#[derive(Clone, Copy, Debug, PartialEq, Eq)]
pub struct RenderPassLayout {
    pub color_format: Format,
    pub samples: u32,
}

impl RenderPassLayout {
    pub open spec fn single_pass_spec(format: Format) -> RenderPassLayout {
        RenderPassLayout { color_format: format, samples: 1 }
    }

    /// The single-pass layout with one color attachment of the given format,
    /// sampled once per pixel.
    pub fn single_pass(format: Format) -> (layout: RenderPassLayout)
        ensures
            layout == Self::single_pass_spec(format),
    {
        RenderPassLayout { color_format: format, samples: 1 }
    }
}

/// A render target: exactly one swapchain image as the color attachment of a
/// render pass layout.
#[derive(Clone, Copy, Debug, PartialEq, Eq)]
pub struct RenderTarget {
    pub image: SwapchainImage,
    pub layout: RenderPassLayout,
}

/// The images of a swapchain of the given dimensions and generation, one per
/// platform handle, in the platform's order.
pub open spec fn images_for(handles: Seq<u64>, dimensions: Extent, generation: u64) -> Seq<
    SwapchainImage,
> {
    Seq::new(
        handles.len(),
        |i: int| SwapchainImage { handle: handles[i], dimensions, generation },
    )
}

/// The render targets of a sequence of images: one per image, in order, each
/// with that image as its only attachment.
pub open spec fn targets_for(images: Seq<SwapchainImage>, layout: RenderPassLayout) -> Seq<
    RenderTarget,
> {
    Seq::new(images.len(), |i: int| RenderTarget { image: images[i], layout })
}

fn wrap_images(handles: &Vec<u64>, dimensions: Extent, generation: u64) -> (images: Vec<
    SwapchainImage,
>)
    ensures
        images@ == images_for(handles@, dimensions, generation),
{
    let mut images: Vec<SwapchainImage> = Vec::new();
    let mut i: usize = 0;
    while i < handles.len()
        invariant
            i <= handles@.len(),
            images@.len() == i,
            forall|k: int|
                0 <= k < i ==> images@[k] == (SwapchainImage {
                    handle: handles@[k],
                    dimensions,
                    generation,
                }),
        decreases handles@.len() - i,
    {
        images.push(SwapchainImage { handle: handles[i], dimensions, generation });
        i += 1;
    }
    images
}

/// Builds the render targets for a sequence of images, always in full.
pub fn build_targets(images: &Vec<SwapchainImage>, layout: RenderPassLayout) -> (targets: Vec<
    RenderTarget,
>)
    ensures
        targets@ == targets_for(images@, layout),
{
    let mut targets: Vec<RenderTarget> = Vec::new();
    let mut i: usize = 0;
    while i < images.len()
        invariant
            i <= images@.len(),
            targets@.len() == i,
            forall|k: int| 0 <= k < i ==> targets@[k] == (RenderTarget { image: images@[k], layout }),
        decreases images@.len() - i,
    {
        targets.push(RenderTarget { image: images[i], layout });
        i += 1;
    }
    targets
}

/// Everything that depends on the size of the presentable images: sets the
/// dynamic viewport state to span the first image and builds one render
/// target per image.
pub fn window_size_dependent_setup(
    images: &Vec<SwapchainImage>,
    render_pass: RenderPassLayout,
    dynamic_state: &mut ViewportState,
) -> (framebuffers: Vec<RenderTarget>)
    requires
        images@.len() > 0,
    ensures
        *final(dynamic_state) == ViewportState::spanning(images@[0].dimensions),
        framebuffers@ == targets_for(images@, render_pass),
{
    *dynamic_state = ViewportState::covering(images[0].dimensions);
    build_targets(images, render_pass)
}

/// How the platform's attempt to create a swapchain failed.
#[derive(Clone, Copy, Debug, PartialEq, Eq, Structural)]
pub enum CreationFailure {
    OutOfMemory,
    DeviceLost,
    SurfaceLost,
    SurfaceInUse,
    NativeWindowInUse,
    MissingSwapchainExtension,
    MissingFullscreenExclusiveExtension,
    OldSwapchainSurfaceMismatch,
    OldSwapchainAlreadyUsed,
    UnsupportedMinImagesCount,
    UnsupportedMaxImagesCount,
    UnsupportedFormat,
    /// The surface does not support the requested dimensions.
    UnsupportedDimensions,
    UnsupportedArrayLayers,
    UnsupportedUsageFlags,
    UnsupportedSurfaceTransform,
    UnsupportedCompositeAlpha,
    UnsupportedPresentMode,
}

/// Why a swapchain was not recreated.
#[derive(Clone, Copy, Debug, PartialEq, Eq, Structural)]
pub enum RecreateError {
    /// The surface has no area or the platform does not support the
    /// dimensions: skip this tick and try again on the next.
    Unsupported,
    /// The platform failed in another way.
    Platform(CreationFailure),
    /// The platform handed back fewer images than were asked for, or none.
    TooFewImages,
    /// The generation marker cannot be incremented any further.
    GenerationExhausted,
}

impl RecreateError {
    /// Every failure but `Unsupported` is fatal.
    pub open spec fn is_fatal(&self) -> bool {
        *self != RecreateError::Unsupported
    }

    /// Whether the failure ends the process rather than the tick.
    pub fn fatal(&self) -> (fatal: bool)
        ensures
            fatal == self.is_fatal(),
    {
        match self {
            RecreateError::Unsupported => false,
            _ => true,
        }
    }
}

/// The chain of presentable images bound to the surface, with the render
/// targets built on them. It is created once and from then on only replaced
/// as a whole.
#[derive(Debug)]
pub struct SwapchainState {
    present_mode: PresentMode,
    format: Format,
    composite_alpha: CompositeAlpha,
    min_image_count: u32,
    dimensions: Extent,
    images: Vec<SwapchainImage>,
    targets: Vec<RenderTarget>,
    generation: u64,
}

/// The mathematical content of a `SwapchainState`.
pub struct SwapchainView {
    pub present_mode: PresentMode,
    pub format: Format,
    pub composite_alpha: CompositeAlpha,
    /// Least number of images asked of the platform.
    pub min_image_count: u32,
    pub dimensions: Extent,
    pub images: Seq<SwapchainImage>,
    pub targets: Seq<RenderTarget>,
    /// Incremented on every rebuild.
    pub generation: u64,
}

impl SwapchainView {
    /// The layout that the render targets are built for.
    pub open spec fn layout(self) -> RenderPassLayout {
        RenderPassLayout::single_pass_spec(self.format)
    }

    /// There is at least one image and no fewer than were asked for; every
    /// image has the swapchain's dimensions and generation; and there is
    /// exactly one render target per image, wrapping that image.
    pub open spec fn wf(self) -> bool {
        &&& Self::enough_images(self.min_image_count, self.images.len())
        &&& forall|i: int|
            0 <= i < self.images.len() ==> {
                &&& (#[trigger] self.images[i]).dimensions == self.dimensions
                &&& self.images[i].generation == self.generation
            }
        &&& self.targets == targets_for(self.images, self.layout())
    }

    /// Whether the platform delivered a usable number of images.
    pub open spec fn enough_images(min_image_count: u32, delivered: nat) -> bool {
        delivered >= 1 && delivered >= min_image_count
    }

    /// The swapchain that results when the platform answers `request` with
    /// the images `handles`.
    pub open spec fn assemble(request: SwapchainRequest, handles: Seq<u64>, generation: u64) -> SwapchainView {
        let images = images_for(handles, request.dimensions, generation);
        SwapchainView {
            present_mode: request.present_mode,
            format: request.format,
            composite_alpha: request.composite_alpha,
            min_image_count: request.min_image_count,
            dimensions: request.dimensions,
            images,
            targets: targets_for(images, RenderPassLayout::single_pass_spec(request.format)),
            generation,
        }
    }

    /// The first swapchain of a surface, generation zero.
    pub open spec fn create(request: SwapchainRequest, handles: Seq<u64>) -> Result<
        (SwapchainView, ViewportState),
        CreateError,
    > {
        if !Self::enough_images(request.min_image_count, handles.len()) {
            Err(CreateError::TooFewImages)
        } else {
            Ok((Self::assemble(request, handles, 0), ViewportState::spanning(request.dimensions)))
        }
    }

    /// What to ask of the platform to rebuild this swapchain at new
    /// dimensions: the same as before, but for the dimensions.
    pub open spec fn recreate_request(self, new_dimensions: Extent) -> Result<
        SwapchainRequest,
        RecreateError,
    > {
        if new_dimensions.is_degenerate() {
            Err(RecreateError::Unsupported)
        } else {
            Ok(
                SwapchainRequest {
                    min_image_count: self.min_image_count,
                    format: self.format,
                    dimensions: new_dimensions,
                    composite_alpha: self.composite_alpha,
                    present_mode: self.present_mode,
                },
            )
        }
    }

    /// The outcome of rebuilding this swapchain at new dimensions, given the
    /// platform's answer to the request.
    pub open spec fn recreate(
        self,
        new_dimensions: Extent,
        platform: Result<Vec<u64>, CreationFailure>,
    ) -> Result<(SwapchainView, ViewportState), RecreateError> {
        match self.recreate_request(new_dimensions) {
            Err(unsupported) => Err(unsupported),
            Ok(request) => match platform {
                Err(CreationFailure::UnsupportedDimensions) => Err(RecreateError::Unsupported),
                Err(failure) => Err(RecreateError::Platform(failure)),
                Ok(handles) => if !Self::enough_images(self.min_image_count, handles@.len()) {
                    Err(RecreateError::TooFewImages)
                } else if self.generation == u64::MAX {
                    Err(RecreateError::GenerationExhausted)
                } else {
                    Ok(
                        (
                            Self::assemble(request, handles@, (self.generation + 1) as u64),
                            ViewportState::spanning(new_dimensions),
                        ),
                    )
                },
            },
        }
    }
}

impl View for SwapchainState {
    type V = SwapchainView;

    closed spec fn view(&self) -> SwapchainView {
        SwapchainView {
            present_mode: self.present_mode,
            format: self.format,
            composite_alpha: self.composite_alpha,
            min_image_count: self.min_image_count,
            dimensions: self.dimensions,
            images: self.images@,
            targets: self.targets@,
            generation: self.generation,
        }
    }
}

/// The mathematical content of what `create` and `recreate` return.
pub open spec fn built_view<E>(built: Result<(SwapchainState, ViewportState), E>) -> Result<
    (SwapchainView, ViewportState),
    E,
> {
    match built {
        Ok((state, viewport)) => Ok((state@, viewport)),
        Err(error) => Err(error),
    }
}

impl SwapchainState {
    /// The invariant of the swapchain: see `SwapchainView::wf`.
    pub open spec fn wf(&self) -> bool {
        self@.wf()
    }

    fn assemble(request: &SwapchainRequest, handles: &Vec<u64>, generation: u64) -> (built: (
        SwapchainState,
        ViewportState,
    ))
        requires
            SwapchainView::enough_images(request.min_image_count, handles@.len()),
        ensures
            built.0@ == SwapchainView::assemble(*request, handles@, generation),
            built.1 == ViewportState::spanning(request.dimensions),
            built.0.wf(),
    {
        let images = wrap_images(handles, request.dimensions, generation);
        let mut viewport = ViewportState::covering(request.dimensions);
        let targets = window_size_dependent_setup(
            &images,
            RenderPassLayout::single_pass(request.format),
            &mut viewport,
        );
        let state = SwapchainState {
            present_mode: request.present_mode,
            format: request.format,
            composite_alpha: request.composite_alpha,
            min_image_count: request.min_image_count,
            dimensions: request.dimensions,
            images,
            targets,
            generation,
        };
        (state, viewport)
    }

    /// Takes over the first swapchain of a surface: `handles` are the images
    /// that the platform created for `request`. Fails when the platform
    /// delivered no image or fewer than the request's minimum.
    pub fn create(request: &SwapchainRequest, handles: &Vec<u64>) -> (created: Result<
        (SwapchainState, ViewportState),
        CreateError,
    >)
        ensures
            built_view(created) == SwapchainView::create(*request, handles@),
            created matches Ok(pair) ==> pair.0.wf(),
    {
        let delivered = handles.len();
        if delivered < 1 || (delivered as u64) < (request.min_image_count as u64) {
            return Err(CreateError::TooFewImages);
        }
        Ok(Self::assemble(request, handles, 0))
    }

    /// Decides what to ask of the platform to rebuild the swapchain at
    /// `new_dimensions`, or that nothing can be asked because the surface has
    /// no area.
    pub fn recreate_request(&self, new_dimensions: Extent) -> (request: Result<
        SwapchainRequest,
        RecreateError,
    >)
        ensures
            request == self@.recreate_request(new_dimensions),
    {
        if new_dimensions.degenerate() {
            return Err(RecreateError::Unsupported);
        }
        Ok(
            SwapchainRequest {
                min_image_count: self.min_image_count,
                format: self.format,
                dimensions: new_dimensions,
                composite_alpha: self.composite_alpha,
                present_mode: self.present_mode,
            },
        )
    }

    /// Rebuilds the swapchain wholesale at `new_dimensions`, from the
    /// platform's answer to the recreation request. The old swapchain is left
    /// as it is; on success the caller replaces it with the new one.
    pub fn recreate(&self, new_dimensions: Extent, platform: Result<Vec<u64>, CreationFailure>) -> (rebuilt:
        Result<(SwapchainState, ViewportState), RecreateError>)
        ensures
            built_view(rebuilt) == self@.recreate(new_dimensions, platform),
            rebuilt matches Ok(pair) ==> pair.0.wf(),
    {
        let request = match self.recreate_request(new_dimensions) {
            Ok(request) => request,
            Err(unsupported) => {
                return Err(unsupported);
            },
        };
        let handles = match platform {
            Ok(handles) => handles,
            Err(CreationFailure::UnsupportedDimensions) => {
                return Err(RecreateError::Unsupported);
            },
            Err(failure) => {
                return Err(RecreateError::Platform(failure));
            },
        };
        let delivered = handles.len();
        if delivered < 1 || (delivered as u64) < (self.min_image_count as u64) {
            return Err(RecreateError::TooFewImages);
        }
        if self.generation == u64::MAX {
            return Err(RecreateError::GenerationExhausted);
        }
        Ok(Self::assemble(&request, &handles, self.generation + 1))
    }

    /// How presentation requests reach the display.
    pub fn present_mode(&self) -> (mode: PresentMode)
        ensures
            mode == self@.present_mode,
    {
        self.present_mode
    }

    /// Pixel format of the images.
    pub fn format(&self) -> (format: Format)
        ensures
            format == self@.format,
    {
        self.format
    }

    /// How the compositor treats the alpha channel.
    pub fn composite_alpha(&self) -> (mode: CompositeAlpha)
        ensures
            mode == self@.composite_alpha,
    {
        self.composite_alpha
    }

    /// Least number of images that was asked of the platform.
    pub fn min_image_count(&self) -> (count: u32)
        ensures
            count == self@.min_image_count,
    {
        self.min_image_count
    }

    /// Width and height of every image.
    pub fn dimensions(&self) -> (dimensions: Extent)
        ensures
            dimensions == self@.dimensions,
    {
        self.dimensions
    }

    /// How many times the swapchain has been rebuilt.
    pub fn generation(&self) -> (generation: u64)
        ensures
            generation == self@.generation,
    {
        self.generation
    }

    /// Number of images in the chain.
    pub fn image_count(&self) -> (count: usize)
        ensures
            count == self@.images.len(),
    {
        self.images.len()
    }

    /// The images, in the platform's order.
    pub fn images(&self) -> (images: &Vec<SwapchainImage>)
        ensures
            images@ == self@.images,
    {
        &self.images
    }

    /// The render targets, one per image and in the same order.
    pub fn targets(&self) -> (targets: &Vec<RenderTarget>)
        ensures
            targets@ == self@.targets,
    {
        &self.targets
    }

    /// The render target of the image with the given index, if there is such
    /// an image.
    pub fn target(&self, image_index: usize) -> (target: Option<RenderTarget>)
        ensures
            target == if image_index < self@.targets.len() {
                Some(self@.targets[image_index as int])
            } else {
                None
            },
    {
        if image_index < self.targets.len() {
            Some(self.targets[image_index])
        } else {
            None
        }
    }
}

/// A swapchain assembled from enough images is well formed.
pub proof fn lemma_assemble_is_wf(request: SwapchainRequest, handles: Seq<u64>, generation: u64)
    requires
        SwapchainView::enough_images(request.min_image_count, handles.len()),
    ensures
        SwapchainView::assemble(request, handles, generation).wf(),
{
}

/// Whatever `create` accepts is well formed, and the viewport that comes with
/// it spans it.
pub proof fn lemma_create_is_wf(request: SwapchainRequest, handles: Seq<u64>)
    ensures
        SwapchainView::create(request, handles) matches Ok((created, viewport)) ==> {
            &&& created.wf()
            &&& created.generation == 0
            &&& viewport == ViewportState::spanning(created.dimensions)
        },
{
    if SwapchainView::create(request, handles) is Ok {
        lemma_assemble_is_wf(request, handles, 0);
    }
}

/// Whatever `recreate` builds is well formed, one generation on, and the
/// viewport that comes with it spans it.
pub proof fn lemma_recreate_is_wf(
    old_chain: SwapchainView,
    new_dimensions: Extent,
    platform: Result<Vec<u64>, CreationFailure>,
)
    ensures
        old_chain.recreate(new_dimensions, platform) matches Ok((rebuilt, viewport)) ==> {
            &&& rebuilt.wf()
            &&& rebuilt.generation == old_chain.generation + 1
            &&& rebuilt.dimensions == new_dimensions
            &&& viewport == ViewportState::spanning(rebuilt.dimensions)
        },
{
    if old_chain.recreate(new_dimensions, platform) is Ok {
        lemma_assemble_is_wf(
            old_chain.recreate_request(new_dimensions).unwrap(),
            platform.unwrap()@,
            (old_chain.generation + 1) as u64,
        );
    }
}

/// Rebuilding is idempotent in what it asks and keeps: a second rebuild at
/// the same dimensions asks the platform for exactly what the first asked,
/// and yields a swapchain of the same format, the same requested image count
/// and the same dimensions, with the same viewport. When the platform
/// delivers as many images as before, the number of images is the same too.
pub proof fn lemma_recreate_twice_same_shape(
    old_chain: SwapchainView,
    dimensions: Extent,
    first: Result<Vec<u64>, CreationFailure>,
    second: Result<Vec<u64>, CreationFailure>,
)
    requires
        old_chain.recreate(dimensions, first) is Ok,
        old_chain.recreate(dimensions, first).unwrap().0.recreate(dimensions, second) is Ok,
    ensures
        ({
            let (once, once_viewport) = old_chain.recreate(dimensions, first).unwrap();
            let (twice, twice_viewport) = once.recreate(dimensions, second).unwrap();
            &&& once.recreate_request(dimensions) == old_chain.recreate_request(dimensions)
            &&& twice.format == once.format
            &&& twice.min_image_count == once.min_image_count
            &&& twice.present_mode == once.present_mode
            &&& twice.composite_alpha == once.composite_alpha
            &&& twice.dimensions == once.dimensions
            &&& twice_viewport == once_viewport
            &&& first.unwrap()@.len() == second.unwrap()@.len() ==> twice.images.len()
                == once.images.len()
        }),
{
}

/// A surface without area is never rebuilt for: whatever the platform would
/// answer, no request is made and `recreate` reports `Unsupported`.
pub proof fn lemma_degenerate_is_unsupported(
    old_chain: SwapchainView,
    dimensions: Extent,
    platform: Result<Vec<u64>, CreationFailure>,
)
    requires
        dimensions.width == 0 || dimensions.height == 0,
    ensures
        old_chain.recreate_request(dimensions) == Err::<SwapchainRequest, RecreateError>(
            RecreateError::Unsupported,
        ),
        old_chain.recreate(dimensions, platform) == Err::<
            (SwapchainView, ViewportState),
            RecreateError,
        >(RecreateError::Unsupported),
{
}

/// Startup: the first swapchain of a surface has the surface's minimum
/// extent unless one is given, at least as many images as the surface's
/// minimum, and a viewport that spans that extent with depth range [0, 1].
pub proof fn lemma_startup_shape(
    capabilities: &SurfaceCapabilities,
    dimensions: Option<Extent>,
    handles: Seq<u64>,
)
    requires
        SwapchainRequest::for_surface_spec(capabilities, dimensions) is Ok,
        SwapchainView::create(
            SwapchainRequest::for_surface_spec(capabilities, dimensions).unwrap(),
            handles,
        ) is Ok,
    ensures
        ({
            let request = SwapchainRequest::for_surface_spec(capabilities, dimensions).unwrap();
            let (created, viewport) = SwapchainView::create(request, handles).unwrap();
            let extent = match dimensions {
                Some(given) => given,
                None => capabilities.min_image_extent,
            };
            &&& created.wf()
            &&& created.images.len() >= capabilities.min_image_count
            &&& created.images.len() == handles.len()
            &&& created.dimensions == extent
            &&& created.present_mode == PresentMode::Fifo
            &&& created.format == capabilities.supported_formats@[0].0
            &&& viewport == (ViewportState {
                width: extent.width,
                height: extent.height,
                depth_near: 0,
                depth_far: 1,
            })
        }),
{
    lemma_create_is_wf(
        SwapchainRequest::for_surface_spec(capabilities, dimensions).unwrap(),
        handles,
    );
}

} // verus!
