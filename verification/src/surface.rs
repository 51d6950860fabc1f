//! What a presentation surface supports, and what is asked of it when the
//! first swapchain is created.

use crate::geometry::Extent;
use vstd::prelude::*;
use vulkano::format::Format;
use vulkano::swapchain::ColorSpace;

verus! {

/// `vulkano::format::Format`, the pixel format of the swapchain images. The
/// engine never looks inside a format: it picks one from the list the surface
/// reports and carries it through.
#[verifier::external_type_specification]
#[verifier::external_body]
pub struct ExFormat(vulkano::format::Format);

/// `vulkano::swapchain::ColorSpace`, reported by the surface beside each
/// format. Carried through, never inspected.
#[verifier::external_type_specification]
#[verifier::external_body]
pub struct ExColorSpace(vulkano::swapchain::ColorSpace);

/// How presentation requests reach the display.
#[derive(Clone, Copy, Debug, PartialEq, Eq, Structural)]
pub enum PresentMode {
    Immediate,
    Mailbox,
    /// Requests queue up and are shown in submission order, without tearing.
    Fifo,
    Relaxed,
}

/// How the alpha channel of a presented image is treated by the compositor.
#[derive(Clone, Copy, Debug, PartialEq, Eq, Structural)]
pub enum CompositeAlpha {
    Opaque,
    PreMultiplied,
    PostMultiplied,
    Inherit,
}

/// The composite alpha modes a surface supports, one flag per mode.
#[derive(Clone, Copy, Debug, PartialEq, Eq, Structural)]
pub struct SupportedCompositeAlpha {
    pub opaque: bool,
    pub pre_multiplied: bool,
    pub post_multiplied: bool,
    pub inherit: bool,
}

impl SupportedCompositeAlpha {
    /// The first supported mode, in the order opaque, pre-multiplied,
    /// post-multiplied, inherit.
    pub open spec fn first(&self) -> Option<CompositeAlpha> {
        if self.opaque {
            Some(CompositeAlpha::Opaque)
        } else if self.pre_multiplied {
            Some(CompositeAlpha::PreMultiplied)
        } else if self.post_multiplied {
            Some(CompositeAlpha::PostMultiplied)
        } else if self.inherit {
            Some(CompositeAlpha::Inherit)
        } else {
            None
        }
    }
}

/// Calls `vulkano::swapchain::SupportedCompositeAlpha::iter` and takes the
/// iterator's first item. Trusted: the iterator yields the modes whose flag is
/// set in the order opaque, pre-multiplied, post-multiplied, inherit, so its
/// first item is the first set flag in that order, and there is none when no
/// flag is set.
#[verifier::external_body]
fn first_composite_alpha(supported: &SupportedCompositeAlpha) -> (first: Option<CompositeAlpha>)
    ensures
        first == supported.first(),
{
    let flags = vulkano::swapchain::SupportedCompositeAlpha {
        opaque: supported.opaque,
        pre_multiplied: supported.pre_multiplied,
        post_multiplied: supported.post_multiplied,
        inherit: supported.inherit,
    };
    match flags.iter().next() {
        Some(vulkano::swapchain::CompositeAlpha::Opaque) => Some(CompositeAlpha::Opaque),
        Some(vulkano::swapchain::CompositeAlpha::PreMultiplied) => Some(CompositeAlpha::PreMultiplied),
        Some(vulkano::swapchain::CompositeAlpha::PostMultiplied) => Some(CompositeAlpha::PostMultiplied),
        Some(vulkano::swapchain::CompositeAlpha::Inherit) => Some(CompositeAlpha::Inherit),
        None => None,
    }
}

/// The part of a surface's capabilities that swapchain creation reads.
#[derive(Debug)]
pub struct SurfaceCapabilities {
    /// Least number of images a swapchain on this surface must have.
    pub min_image_count: u32,
    /// Smallest image extent the surface supports at the moment.
    pub min_image_extent: Extent,
    pub supported_composite_alpha: SupportedCompositeAlpha,
    /// Supported formats, each with its color space, in the platform's order.
    pub supported_formats: Vec<(Format, ColorSpace)>,
}

/// Why no swapchain can be asked for on a surface.
#[derive(Clone, Copy, Debug, PartialEq, Eq, Structural)]
pub enum CreateError {
    /// The surface supports no composite alpha mode.
    NoCompositeAlpha,
    /// The surface lists no image format.
    NoSupportedFormat,
    /// The platform handed back fewer images than were asked for, or none.
    TooFewImages,
}

/// What is asked of the platform when a swapchain is created or recreated.
#[derive(Clone, Copy, Debug, PartialEq, Eq)]
pub struct SwapchainRequest {
    /// Least number of images the swapchain is to have.
    pub min_image_count: u32,
    pub format: Format,
    pub dimensions: Extent,
    pub composite_alpha: CompositeAlpha,
    pub present_mode: PresentMode,
}

impl SwapchainRequest {
    /// The request for a surface's first swapchain, as a function of its
    /// capabilities: the surface's minimum image count, its first listed
    /// format, its first supported composite alpha, FIFO presentation, and the
    /// given dimensions or, without any, the surface's minimum extent.
    pub open spec fn for_surface_spec(
        capabilities: &SurfaceCapabilities,
        dimensions: Option<Extent>,
    ) -> Result<SwapchainRequest, CreateError> {
        if capabilities.supported_composite_alpha.first() is None {
            Err(CreateError::NoCompositeAlpha)
        } else if capabilities.supported_formats@.len() == 0 {
            Err(CreateError::NoSupportedFormat)
        } else {
            Ok(
                SwapchainRequest {
                    min_image_count: capabilities.min_image_count,
                    format: capabilities.supported_formats@[0].0,
                    dimensions: match dimensions {
                        Some(given) => given,
                        None => capabilities.min_image_extent,
                    },
                    composite_alpha: capabilities.supported_composite_alpha.first().unwrap(),
                    present_mode: PresentMode::Fifo,
                },
            )
        }
    }

    /// Decides what to ask of the platform for a surface's first swapchain.
    pub fn for_surface(capabilities: &SurfaceCapabilities, dimensions: Option<Extent>) -> (request:
        Result<SwapchainRequest, CreateError>)
        ensures
            request == Self::for_surface_spec(capabilities, dimensions),
    {
        let composite_alpha = match first_composite_alpha(&capabilities.supported_composite_alpha) {
            Some(mode) => mode,
            None => {
                return Err(CreateError::NoCompositeAlpha);
            },
        };
        if capabilities.supported_formats.len() == 0 {
            return Err(CreateError::NoSupportedFormat);
        }
        let format = capabilities.supported_formats[0].0;
        let dimensions = match dimensions {
            Some(given) => given,
            None => capabilities.min_image_extent,
        };
        Ok(
            SwapchainRequest {
                min_image_count: capabilities.min_image_count,
                format,
                dimensions,
                composite_alpha,
                present_mode: PresentMode::Fifo,
            },
        )
    }
}

/// What queue-family selection reads of one queue family of a device.
#[derive(Clone, Copy, Debug, PartialEq, Eq)]
pub struct QueueFamily {
    pub supports_graphics: bool,
    /// Whether the family can present to the surface; `None` when the
    /// platform could not tell.
    pub surface_support: Option<bool>,
}

impl QueueFamily {
    /// A family is usable when it does graphics and is known to present to
    /// the surface.
    pub open spec fn usable(&self) -> bool {
        self.supports_graphics && self.surface_support == Some(true)
    }
}

/// Index of the first usable queue family, if there is one.
pub fn select_queue_family(families: &Vec<QueueFamily>) -> (choice: Option<usize>)
    ensures
        match choice {
            Some(index) => {
                &&& index < families@.len()
                &&& families@[index as int].usable()
                &&& forall|earlier: int| 0 <= earlier < index ==> !families@[earlier].usable()
            },
            None => forall|any: int| 0 <= any < families@.len() ==> !families@[any].usable(),
        },
{
    let mut index: usize = 0;
    while index < families.len()
        invariant
            index <= families@.len(),
            forall|earlier: int| 0 <= earlier < index ==> !families@[earlier].usable(),
        decreases families@.len() - index,
    {
        let family = &families[index];
        let presents = match family.surface_support {
            Some(supported) => supported,
            None => false,
        };
        if family.supports_graphics && presents {
            return Some(index);
        }
        index += 1;
    }
    None
}

} // verus!
