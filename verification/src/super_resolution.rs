use crate::error::DlssError;
use crate::jitter::{jitter_offset, jitter_phase_count, phase_count, suggested_jitter, JitterOffset};
use crate::render_parameters::{
    effective_motion_vector_scale, effective_subrect, native_resource, optional_native_resource,
    optional_texture_to_ngx_resource, texture_to_ngx_resource, DlssExposure,
    DlssRenderParameters, NativeResource, TextureTransition,
};
use crate::resolution::Resolution;
use crate::scalar::{Float2, Float32, ZERO_BITS};
use crate::teardown::{Teardown, TeardownState};
use crate::settings::{
    Coordinates, DlssFeatureFlags, DlssPerfQualityMode, FeatureHandle, OptimalSettings,
};
use vstd::prelude::*;

verus! {

/// Input and output resources of one evaluation of [`DlssSuperResolution`].
pub type DlssSuperResolutionRenderParameters = DlssRenderParameters;

/// Camera exposure as an input of [`DlssSuperResolution`].
pub type DlssSuperResolutionExposure = DlssExposure;

/// The least number of jitter positions before the sequence repeats.
pub const MINIMUM_JITTER_PHASES: u32 = 32;

/// What the runtime is asked to create for a [`DlssSuperResolution`].
#[derive(Clone, Copy, Debug, PartialEq, Eq, Structural)]
pub struct DlssSuperResolutionCreateParams {
    /// The resolution that the camera renders at.
    pub render_resolution: Resolution,
    /// The resolution that the feature puts out.
    pub target_resolution: Resolution,
    /// The runtime's quality value for the chosen mode.
    pub perf_quality_value: u32,
    pub feature_create_flags: i32,
    pub enable_output_subrects: bool,
}

/// A feature that is about to be created: what to ask of the runtime, and
/// the range of render resolutions that the feature will take.
#[derive(Clone, Copy, Debug, PartialEq, Eq, Structural)]
pub struct DlssSuperResolutionCreation {
    pub create_params: DlssSuperResolutionCreateParams,
    pub min_render_resolution: Resolution,
    pub max_render_resolution: Resolution,
}

/// The resolutions that a feature renders at: the resolution that it puts
/// out, all three of them, where the mode asks for exactly that, whatever the
/// runtime has answered, and else the runtime's answer.
pub open spec fn chosen_settings(
    upscaled_resolution: Resolution,
    perf_quality_mode: DlssPerfQualityMode,
    settings: OptimalSettings,
) -> OptimalSettings {
    if perf_quality_mode.is_exact_resolution() {
        OptimalSettings::exact(upscaled_resolution)
    } else {
        settings
    }
}

/// The creation that follows from the caller's choices and the runtime's
/// answer.
pub open spec fn creation_for(
    upscaled_resolution: Resolution,
    perf_quality_mode: DlssPerfQualityMode,
    perf_quality_value: u32,
    feature_flags: DlssFeatureFlags,
    settings: OptimalSettings,
) -> DlssSuperResolutionCreation {
    let chosen = chosen_settings(upscaled_resolution, perf_quality_mode, settings);
    DlssSuperResolutionCreation {
        create_params: DlssSuperResolutionCreateParams {
            render_resolution: chosen.optimal_render_resolution,
            target_resolution: upscaled_resolution,
            perf_quality_value,
            feature_create_flags: feature_flags.create_flags,
            enable_output_subrects: feature_flags.output_subrect,
        },
        min_render_resolution: chosen.min_render_resolution,
        max_render_resolution: chosen.max_render_resolution,
    }
}

/// What the runtime is handed for one evaluation of a
/// [`DlssSuperResolution`]. A resource that is `None` is handed over as
/// absent.
#[derive(Clone, Copy, Debug, PartialEq, Eq)]
pub struct DlssSuperResolutionEvalParams {
    pub color: NativeResource,
    pub output: NativeResource,
    pub depth: NativeResource,
    pub motion_vectors: NativeResource,
    pub exposure_texture: Option<NativeResource>,
    pub bias_current_color_mask: Option<NativeResource>,
    pub sharpness: Float32,
    pub jitter_offset: Float2,
    pub render_subrect_dimensions: Resolution,
    pub reset: bool,
    pub motion_vector_scale: Float2,
    /// Where in each resource the part to evaluate begins.
    pub subrect_base: Coordinates,
    pub pre_exposure: Float32,
    pub exposure_scale: Float32,
}

/// One evaluation, ready to be recorded: first the transitions, then the
/// call of the runtime on the feature with the parameters.
#[derive(Debug, PartialEq, Eq)]
pub struct DlssSuperResolutionEvaluation {
    pub transitions: Vec<TextureTransition>,
    pub feature: FeatureHandle,
    pub parameters: DlssSuperResolutionEvalParams,
}

/// The parameters of an evaluation at a given render resolution: every view
/// that is supplied is described afresh, every other resource is absent, the
/// part to evaluate begins at the origin of each resource, and the exposure
/// is the application's or, with every exposure value zero or absent, the
/// runtime's.
pub open spec fn eval_params_for(
    render_resolution: Resolution,
    render_parameters: DlssSuperResolutionRenderParameters,
) -> DlssSuperResolutionEvalParams {
    DlssSuperResolutionEvalParams {
        color: native_resource(render_parameters.color),
        output: native_resource(render_parameters.dlss_output),
        depth: native_resource(render_parameters.depth),
        motion_vectors: native_resource(render_parameters.motion_vectors),
        exposure_texture: optional_native_resource(render_parameters.exposure.texture()),
        bias_current_color_mask: optional_native_resource(render_parameters.bias),
        sharpness: Float32 { bits: ZERO_BITS },
        jitter_offset: render_parameters.jitter_offset,
        render_subrect_dimensions: effective_subrect(
            render_parameters.partial_texture_size,
            render_resolution,
        ),
        reset: render_parameters.reset,
        motion_vector_scale: effective_motion_vector_scale(render_parameters.motion_vector_scale),
        subrect_base: Coordinates::spec_origin(),
        pre_exposure: render_parameters.exposure.pre_exposure_value(),
        exposure_scale: render_parameters.exposure.scale(),
    }
}

/// Camera-specific state of upscaling the color image.
///
/// Making one is expensive: keep it, and make a new one only when the
/// settings change.
#[derive(Debug)]
pub struct DlssSuperResolution {
    upscaled_resolution: Resolution,
    render_resolution: Resolution,
    min_render_resolution: Resolution,
    max_render_resolution: Resolution,
    feature: FeatureHandle,
}

impl DlssSuperResolution {
    /// The resolution that the feature puts out.
    pub closed spec fn spec_upscaled_resolution(&self) -> Resolution {
        self.upscaled_resolution
    }

    /// The resolution that the camera should render at.
    pub closed spec fn spec_render_resolution(&self) -> Resolution {
        self.render_resolution
    }

    /// The smallest and the largest resolution that the feature takes.
    pub closed spec fn spec_render_resolution_range(&self) -> (Resolution, Resolution) {
        (self.min_render_resolution, self.max_render_resolution)
    }

    /// The native handle of the context's feature.
    pub closed spec fn spec_feature(&self) -> FeatureHandle {
        self.feature
    }

    /// Works out what to ask the runtime to create, from the caller's choices
    /// and the runtime's answer to the question at which resolutions to
    /// render. Where the runtime failed to answer, its error is handed on and
    /// nothing is to be created.
    pub fn create_params(
        upscaled_resolution: Resolution,
        perf_quality_mode: DlssPerfQualityMode,
        perf_quality_value: u32,
        feature_flags: DlssFeatureFlags,
        optimal_settings: Result<OptimalSettings, DlssError>,
    ) -> (creation: Result<DlssSuperResolutionCreation, DlssError>)
        ensures
            match optimal_settings {
                Ok(settings) => creation == Ok::<DlssSuperResolutionCreation, DlssError>(
                    creation_for(
                        upscaled_resolution,
                        perf_quality_mode,
                        perf_quality_value,
                        feature_flags,
                        settings,
                    ),
                ),
                Err(error) => creation == Err::<DlssSuperResolutionCreation, DlssError>(error),
            },
    {
        let settings = match optimal_settings {
            Ok(settings) => settings,
            Err(error) => {
                return Err(error);
            },
        };
        let mut optimal_render_resolution = settings.optimal_render_resolution;
        let mut min_render_resolution = settings.min_render_resolution;
        let mut max_render_resolution = settings.max_render_resolution;
        if perf_quality_mode.renders_at_output_resolution() {
            optimal_render_resolution = upscaled_resolution;
            min_render_resolution = upscaled_resolution;
            max_render_resolution = upscaled_resolution;
        }
        Ok(
            DlssSuperResolutionCreation {
                create_params: DlssSuperResolutionCreateParams {
                    render_resolution: optimal_render_resolution,
                    target_resolution: upscaled_resolution,
                    perf_quality_value,
                    feature_create_flags: feature_flags.create_flags,
                    enable_output_subrects: feature_flags.output_subrect,
                },
                min_render_resolution,
                max_render_resolution,
            },
        )
    }

    /// Makes the context of a feature that the runtime was asked to create as
    /// `creation` says. Where the runtime failed to create it, its error is
    /// handed on and there is no context.
    pub fn new(creation: &DlssSuperResolutionCreation, feature: Result<FeatureHandle, DlssError>) -> (context:
        Result<Self, DlssError>)
        ensures
            match feature {
                Ok(handle) => {
                    &&& context is Ok
                    &&& context->Ok_0.upscaled_resolution()
                        == creation.create_params.target_resolution
                    &&& context->Ok_0.render_resolution()
                        == creation.create_params.render_resolution
                    &&& context->Ok_0.render_resolution_range() == (
                        creation.min_render_resolution,
                        creation.max_render_resolution,
                    )
                    &&& context->Ok_0.feature() == handle
                },
                Err(error) => context is Err && context->Err_0 == error,
            },
    {
        match feature {
            Ok(handle) => Ok(
                DlssSuperResolution {
                    upscaled_resolution: creation.create_params.target_resolution,
                    render_resolution: creation.create_params.render_resolution,
                    min_render_resolution: creation.min_render_resolution,
                    max_render_resolution: creation.max_render_resolution,
                    feature: handle,
                },
            ),
            Err(error) => Err(error),
        }
    }

    /// Assembles one evaluation: the transitions to record, and what to hand
    /// to the runtime for the context's feature.
    pub fn render(&self, render_parameters: &DlssSuperResolutionRenderParameters) -> (evaluation:
        Result<DlssSuperResolutionEvaluation, DlssError>)
        ensures
            evaluation is Ok,
            evaluation->Ok_0.transitions@ == render_parameters.barriers(),
            evaluation->Ok_0.feature == self.feature(),
            evaluation->Ok_0.parameters == eval_params_for(
                self.render_resolution(),
                *render_parameters,
            ),
    {
        render_parameters.validate()?;

        let partial_texture_size = match render_parameters.partial_texture_size {
            Some(size) => size,
            None => self.render_resolution,
        };
        let motion_vector_scale = match render_parameters.motion_vector_scale {
            Some(scale) => scale,
            None => Float2::one(),
        };
        let exposure = render_parameters.exposure.exposure_texture();

        let parameters = DlssSuperResolutionEvalParams {
            color: texture_to_ngx_resource(&render_parameters.color),
            output: texture_to_ngx_resource(&render_parameters.dlss_output),
            depth: texture_to_ngx_resource(&render_parameters.depth),
            motion_vectors: texture_to_ngx_resource(&render_parameters.motion_vectors),
            exposure_texture: optional_texture_to_ngx_resource(&exposure),
            bias_current_color_mask: optional_texture_to_ngx_resource(&render_parameters.bias),
            sharpness: Float32::zero(),
            jitter_offset: render_parameters.jitter_offset,
            render_subrect_dimensions: partial_texture_size,
            reset: render_parameters.reset,
            motion_vector_scale,
            subrect_base: Coordinates::origin(),
            pre_exposure: render_parameters.exposure.pre_exposure_or_default(),
            exposure_scale: render_parameters.exposure.exposure_scale_or_default(),
        };

        Ok(
            DlssSuperResolutionEvaluation {
                transitions: render_parameters.barrier_list(),
                feature: self.feature,
                parameters,
            },
        )
    }

    /// The number of jitter positions before the sequence repeats, for a
    /// camera that renders at `render_resolution`.
    pub open spec fn jitter_phases(&self, render_resolution: Resolution) -> nat {
        phase_count(
            self.upscaled_resolution().width as nat,
            render_resolution.width as nat,
            MINIMUM_JITTER_PHASES as nat,
        )
    }

    /// Suggested subpixel jitter of the camera for a given frame.
    pub fn suggested_jitter(&self, frame_number: u32, render_resolution: Resolution) -> (offset:
        JitterOffset)
        requires
            render_resolution.width > 0,
        ensures
            (offset.x@, offset.y@) == jitter_offset(
                frame_number as nat,
                self.jitter_phases(render_resolution),
            ),
            offset.x@.in_centered_unit_range(),
            offset.y@.in_centered_unit_range(),
    {
        let phases = jitter_phase_count(
            self.upscaled_resolution.width,
            render_resolution.width,
            MINIMUM_JITTER_PHASES,
        );
        suggested_jitter(frame_number, phases)
    }

    /// Begins the destruction of the context. The context is given up; what
    /// is returned says, step by step, what the host has to do to release the
    /// feature.
    pub fn destroy(self) -> (teardown: Teardown)
        ensures
            teardown == (Teardown { feature: self.feature(), state: TeardownState::Alive }),
    {
        Teardown::new(self.feature)
    }

    /// The resolution that the feature puts out.
    #[verifier::when_used_as_spec(spec_upscaled_resolution)]
    pub fn upscaled_resolution(&self) -> (resolution: Resolution)
        ensures
            resolution == self.upscaled_resolution(),
    {
        self.upscaled_resolution
    }

    /// The resolution that the camera should render at, before upscaling.
    #[verifier::when_used_as_spec(spec_render_resolution)]
    pub fn render_resolution(&self) -> (resolution: Resolution)
        ensures
            resolution == self.render_resolution(),
    {
        self.render_resolution
    }

    /// Like [`Self::render_resolution`], but the smallest and the largest
    /// resolution that the feature takes, for use with dynamic resolution
    /// scaling.
    #[verifier::when_used_as_spec(spec_render_resolution_range)]
    pub fn render_resolution_range(&self) -> (range: (Resolution, Resolution))
        ensures
            range == self.render_resolution_range(),
    {
        (self.min_render_resolution, self.max_render_resolution)
    }

    /// The native handle of the context's feature.
    #[verifier::when_used_as_spec(spec_feature)]
    pub fn feature(&self) -> (handle: FeatureHandle)
        ensures
            handle == self.feature(),
    {
        self.feature
    }
}

/// In the mode that asks for exactly the output resolution, a feature renders
/// at the resolution that it puts out and takes no other, whatever the runtime
/// has answered.
pub proof fn lemma_exact_resolution_overrides_settings(
    upscaled_resolution: Resolution,
    perf_quality_value: u32,
    feature_flags: DlssFeatureFlags,
    settings: OptimalSettings,
)
    ensures
        ({
            let creation = creation_for(
                upscaled_resolution,
                DlssPerfQualityMode::Dlaa,
                perf_quality_value,
                feature_flags,
                settings,
            );
            &&& creation.create_params.render_resolution == upscaled_resolution
            &&& creation.min_render_resolution == upscaled_resolution
            &&& creation.max_render_resolution == upscaled_resolution
        }),
{
}

/// Where the runtime answers with resolutions that are no larger than the
/// output resolution, a feature renders at no more than the resolution that it
/// puts out, in every mode.
pub proof fn lemma_render_resolution_within_output(
    upscaled_resolution: Resolution,
    perf_quality_mode: DlssPerfQualityMode,
    perf_quality_value: u32,
    feature_flags: DlssFeatureFlags,
    settings: OptimalSettings,
)
    requires
        settings.fits_within(upscaled_resolution),
    ensures
        ({
            let creation = creation_for(
                upscaled_resolution,
                perf_quality_mode,
                perf_quality_value,
                feature_flags,
                settings,
            );
            &&& creation.create_params.render_resolution.fits_within(upscaled_resolution)
            &&& creation.min_render_resolution.fits_within(upscaled_resolution)
            &&& creation.max_render_resolution.fits_within(upscaled_resolution)
        }),
{
}

} // verus!
