use crate::resolution::Resolution;
use vstd::prelude::*;

verus! {

/// How a feature trades image quality for speed.
#[derive(Clone, Copy, Debug, PartialEq, Eq, Structural)]
pub enum DlssPerfQualityMode {
    /// Let the resolution to upscale to decide.
    Auto,
    /// Render at the full resolution and use the runtime for anti-aliasing
    /// only.
    Dlaa,
    Quality,
    Balanced,
    Performance,
    UltraPerformance,
}

impl DlssPerfQualityMode {
    /// Whether the mode renders at exactly the resolution that is put out.
    pub open spec fn is_exact_resolution(self) -> bool {
        self == DlssPerfQualityMode::Dlaa
    }

    /// Whether the mode renders at exactly the resolution that is put out.
    pub fn renders_at_output_resolution(&self) -> (exact: bool)
        ensures
            exact == self.is_exact_resolution(),
    {
        match self {
            DlssPerfQualityMode::Dlaa => true,
            _ => false,
        }
    }
}

/// The options that a feature is created with.
#[derive(Clone, Copy, Debug, PartialEq, Eq, Structural)]
pub struct DlssFeatureFlags {
    /// The options as the flag word that the runtime takes.
    pub create_flags: i32,
    /// Whether the feature may write to a part of the output texture only.
    pub output_subrect: bool,
}

/// What the runtime answers when asked at which resolutions to render for a
/// given output resolution and quality value.
#[derive(Clone, Copy, Debug, PartialEq, Eq, Structural)]
pub struct OptimalSettings {
    /// The resolution that the runtime recommends.
    pub optimal_render_resolution: Resolution,
    /// The smallest resolution that the runtime can upscale from.
    pub min_render_resolution: Resolution,
    /// The largest resolution that the runtime can upscale from.
    pub max_render_resolution: Resolution,
}

impl OptimalSettings {
    /// None of the three resolutions is larger than `output` on any axis.
    pub open spec fn fits_within(self, output: Resolution) -> bool {
        &&& self.optimal_render_resolution.fits_within(output)
        &&& self.min_render_resolution.fits_within(output)
        &&& self.max_render_resolution.fits_within(output)
    }

    /// The settings of a feature that renders at exactly `output`.
    pub open spec fn exact(output: Resolution) -> OptimalSettings {
        OptimalSettings {
            optimal_render_resolution: output,
            min_render_resolution: output,
            max_render_resolution: output,
        }
    }
}

/// The native handle of a feature that the runtime has created. Nothing is
/// read of it here; it is kept and handed back.
#[derive(Clone, Copy, Debug, PartialEq, Eq, Structural)]
pub struct FeatureHandle {
    pub raw: u64,
}

/// A position in a texture, in pixels from its origin.
#[derive(Clone, Copy, Debug, PartialEq, Eq, Structural)]
pub struct Coordinates {
    pub x: u32,
    pub y: u32,
}

impl Coordinates {
    /// The origin of a texture.
    pub open spec fn spec_origin() -> Coordinates {
        Coordinates { x: 0, y: 0 }
    }

    /// The origin of a texture.
    pub fn origin() -> (position: Self)
        ensures
            position == Self::spec_origin(),
    {
        Coordinates { x: 0, y: 0 }
    }
}

} // verus!
