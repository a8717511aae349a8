//! Swapchain resource-bundle lifecycle.
//!
//! Everything whose shape depends on the surface dimensions — swapchain,
//! depth buffer, pipeline, per-image framebuffers — lives and dies as one
//! versioned bundle. Resizing or presentation staleness replaces the whole
//! bundle atomically: pipeline and framebuffers are never rebuilt
//! separately, because both depend on the swapchain's image format and
//! count. A recreation request the surface cannot satisfy (zero or
//! otherwise unsupported dimensions) is absorbed silently, leaving the old
//! bundle in place for the caller to retry next frame; the platform call
//! itself is made by the unverified driver, which reports the outcome
//! here.

use vstd::prelude::*;

verus! {

/// One generation of the surface-dependent resources. The counts stand
/// for the platform objects the driver holds alongside: `image_count`
/// swapchain images and one framebuffer per image.
#[derive(Debug, Copy, Clone, PartialEq, Eq, Structural)]
pub struct ResourceBundle {
    /// Bumped once per successful recreation; the driver pairs the
    /// platform objects with this version, so nothing of an old bundle
    /// can be mixed into a new one.
    pub version: u64,
    pub width: u32,
    pub height: u32,
    /// Number of swapchain images.
    pub image_count: usize,
    /// Number of framebuffers; always one per swapchain image.
    pub framebuffer_count: usize,
}

impl ResourceBundle {
    /// A bundle is whole: it carries exactly one framebuffer per
    /// swapchain image.
    pub open spec fn well_formed(self) -> bool {
        self.framebuffer_count == self.image_count
    }
}

/// Outcome of the platform's swapchain recreation call.
#[derive(Debug, Copy, Clone, PartialEq, Eq, Structural)]
pub enum RecreateOutcome {
    /// The requested dimensions are unsupported (for instance zero while
    /// minimized); nothing was built and the old resources stay in use.
    UnsupportedDimensions,
    /// A new swapchain exists with these dimensions and image count.
    Created { width: u32, height: u32, image_count: usize },
}

/// The core's model of the graphics context: which resource bundle is
/// current.
#[derive(Debug, Copy, Clone, PartialEq, Eq, Structural)]
pub struct GraphicsModel {
    pub bundle: ResourceBundle,
}

impl GraphicsModel {
    /// The initial bundle, built at startup for the first surface size.
    pub fn new(width: u32, height: u32, image_count: usize) -> (g: GraphicsModel)
        ensures
            g.bundle == (ResourceBundle {
                version: 0,
                width,
                height,
                image_count,
                framebuffer_count: image_count,
            }),
            g.bundle.well_formed(),
    {
        GraphicsModel {
            bundle: ResourceBundle {
                version: 0,
                width,
                height,
                image_count,
                framebuffer_count: image_count,
            },
        }
    }

    /// Apply the outcome of a swapchain recreation. Unsupported
    /// dimensions change nothing — the old bundle stays current and the
    /// caller retries next frame. A successful recreation replaces the
    /// bundle wholesale: a new version with the new dimensions and one
    /// framebuffer per new image; no field of the old bundle survives
    /// into the new one.
    pub fn apply_recreate(&mut self, outcome: RecreateOutcome)
        requires
            old(self).bundle.version < u64::MAX,
            old(self).bundle.well_formed(),
        ensures
            outcome is UnsupportedDimensions ==> *final(self) == *old(self),
            outcome matches RecreateOutcome::Created { width, height, image_count }
                ==> final(self).bundle == (ResourceBundle {
                version: (old(self).bundle.version + 1) as u64,
                width,
                height,
                image_count,
                framebuffer_count: image_count,
            }),
            final(self).bundle.well_formed(),
    {
        match outcome {
            RecreateOutcome::UnsupportedDimensions => (),
            RecreateOutcome::Created { width, height, image_count } => {
                self.bundle = ResourceBundle {
                    version: self.bundle.version + 1,
                    width,
                    height,
                    image_count,
                    framebuffer_count: image_count,
                };
            },
        }
    }
}

} // verus!
