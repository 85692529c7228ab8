//! What a window is asked to be: its title, its size and its icon, and the
//! steps by which the window's owner builds it.

use vstd::prelude::*;
use crate::icon::{IconError, IconImage, IconPixels, rgba_fault};

verus! {

/// Where a window's icon comes from.
#[derive(Debug, PartialEq, Eq)]
pub enum IconSource {
    /// An image file, to be read and decoded.
    File { path: String },
    /// Pixels that are already decoded.
    Rgba { rgba: Vec<u8>, width: u32, height: u32 },
}

/// The configuration of one window.
#[derive(Debug, PartialEq, Eq)]
pub struct WindowConfig {
    pub title: String,
    /// The inner size in physical pixels, width first; the platform's default
    /// where there is none.
    pub size: Option<(u32, u32)>,
    /// The icon; the platform's default where there is none.
    pub icon: Option<IconSource>,
}

/// What becomes of the icon while the window is built.
#[derive(Debug, PartialEq, Eq)]
pub enum IconStep {
    /// The window keeps the platform's default icon.
    Keep,
    /// The file at this path is decoded and attached.
    Decode { path: String },
    /// This image is attached.
    Attach { image: IconImage },
}

/// What the window's owner asks of the platform.
#[derive(Debug, PartialEq, Eq)]
pub struct WindowPlan {
    pub title: String,
    pub size: Option<(u32, u32)>,
    pub icon: IconStep,
}

/// The fault of a configuration, if it has one: that of its icon's pixels.
pub open spec fn config_fault(config: WindowConfig) -> Option<IconError> {
    match config.icon {
        Some(IconSource::Rgba { rgba, width, height }) => rgba_fault(
            rgba@.len() as usize,
            width,
            height,
        ),
        _ => None,
    }
}

/// True where `step` is what the icon source asks for.
pub open spec fn step_matches(icon: Option<IconSource>, step: IconStep) -> bool {
    match icon {
        None => step == IconStep::Keep,
        Some(IconSource::File { path }) => step == (IconStep::Decode { path }),
        Some(IconSource::Rgba { rgba, width, height }) => step matches IconStep::Attach { image }
            && image@ == (IconPixels { rgba: rgba@, width, height }),
    }
}

impl WindowConfig {
    /// A window with this title, of the platform's default size and icon.
    pub fn new(title: String) -> (config: WindowConfig)
        ensures
            config == (WindowConfig { title, size: None, icon: None }),
    {
        WindowConfig { title, size: None, icon: None }
    }

    /// The same window with the given inner size in physical pixels.
    pub fn with_inner_size(self, width: u32, height: u32) -> (config: WindowConfig)
        ensures
            config == (WindowConfig { size: Some((width, height)), ..self }),
    {
        WindowConfig { title: self.title, size: Some((width, height)), icon: self.icon }
    }

    /// The same window with the given icon source.
    pub fn with_icon(self, icon: IconSource) -> (config: WindowConfig)
        ensures
            config == (WindowConfig { icon: Some(icon), ..self }),
    {
        WindowConfig { title: self.title, size: self.size, icon: Some(icon) }
    }

    /// Turns the configuration into the plan for building the window. Title
    /// and size pass through unchanged. A configuration without an icon
    /// always has a plan, which keeps the default icon. An icon file is left
    /// to be decoded. Pixels are validated, and their fault is the only error.
    pub fn plan(self) -> (r: Result<WindowPlan, IconError>)
        ensures
            match config_fault(self) {
                Some(fault) => r == Err::<WindowPlan, IconError>(fault),
                None => r matches Ok(plan) && plan.title == self.title && plan.size == self.size
                    && step_matches(self.icon, plan.icon),
            },
    {
        let step = match self.icon {
            None => IconStep::Keep,
            Some(IconSource::File { path }) => IconStep::Decode { path },
            Some(IconSource::Rgba { rgba, width, height }) => {
                match IconImage::from_rgba(rgba, width, height) {
                    Ok(image) => IconStep::Attach { image },
                    Err(fault) => {
                        return Err(fault);
                    },
                }
            },
        };
        Ok(WindowPlan { title: self.title, size: self.size, icon: step })
    }
}

/// A configuration without an icon source has no fault: its plan exists,
/// keeps the default icon and asks for the configured size.
pub proof fn lemma_plain_config_has_plan(config: WindowConfig)
    requires
        config.icon is None,
    ensures
        config_fault(config).is_none(),
        step_matches(config.icon, IconStep::Keep),
        forall|step: IconStep| step_matches(config.icon, step) ==> step == IconStep::Keep,
{
}

} // verus!
