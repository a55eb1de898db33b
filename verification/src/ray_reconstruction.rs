use crate::error::DlssError;
use crate::jitter::{jitter_offset, jitter_phase_count, phase_count, suggested_jitter, JitterOffset};
use crate::render_parameters::{
    count_in_state, count_present, effective_motion_vector_scale, effective_subrect,
    input_transition, lemma_count_push_input, lemma_count_push_optional_input,
    lemma_count_push_output, native_resource, optional_input_transitions,
    optional_native_resource, optional_texture_to_ngx_resource, output_transition,
    push_input_transition, push_optional_input_transition, push_output_transition,
    texture_to_ngx_resource, NativeResource, ResourceSlot, TextureState, TextureTransition,
    TextureView,
};
use crate::resolution::Resolution;
use crate::scalar::{Float2, Float32, Matrix4, ZERO_BITS};
use crate::teardown::{Teardown, TeardownState};
use crate::settings::{
    Coordinates, DlssFeatureFlags, DlssPerfQualityMode, FeatureHandle, OptimalSettings,
};
use vstd::prelude::*;

verus! {

/// How roughness is provided to [`DlssRayReconstruction`].
#[derive(Clone, Copy, Debug, PartialEq, Eq, Structural)]
pub enum DlssRayReconstructionRoughnessMode {
    /// Roughness is a texture of its own, in
    /// [`DlssRayReconstructionRenderParameters::roughness`].
    Unpacked,
    /// Roughness is packed into the alpha channel of the normal texture, in
    /// [`DlssRayReconstructionRenderParameters::normals`].
    Packed,
}

/// How depth is provided to [`DlssRayReconstruction`].
#[derive(Clone, Copy, Debug, PartialEq, Eq, Structural)]
pub enum DlssRayReconstructionDepthMode {
    /// Depth is linear in view space.
    Linear,
    /// Depth is a hardware depth buffer.
    Hardware,
}

/// The denoiser that a feature is created with.
#[derive(Clone, Copy, Debug, PartialEq, Eq, Structural)]
pub enum DlssRayReconstructionDenoiseMode {
    /// One network that denoises and upscales.
    Unified,
}

/// Guide buffer for the handling of specular materials.
#[derive(Clone, Copy, Debug, PartialEq, Eq)]
pub enum DlssRayReconstructionSpecularGuide {
    /// Motion vectors of what is reflected in the pixels of specular
    /// materials.
    SpecularMotionVectors(TextureView),
    /// Distance in world space between the primary vertex and the point that
    /// a ray traced from a pixel of a specular material hits.
    SpecularHitDistance {
        /// Specular hit distance texture.
        texture_view: TextureView,
        /// Camera matrix from world space to view space.
        world_to_view_matrix: Matrix4,
        /// Camera matrix from view space to clip space.
        view_to_clip_matrix: Matrix4,
    },
}

impl DlssRayReconstructionSpecularGuide {
    /// The texture view of the guide.
    pub open spec fn texture(self) -> TextureView {
        match self {
            DlssRayReconstructionSpecularGuide::SpecularMotionVectors(view) => view,
            DlssRayReconstructionSpecularGuide::SpecularHitDistance { texture_view, .. } => {
                texture_view
            },
        }
    }

    /// The place that the guide's view takes among the resources.
    pub open spec fn slot(self) -> ResourceSlot {
        match self {
            DlssRayReconstructionSpecularGuide::SpecularMotionVectors(_) => {
                ResourceSlot::SpecularMotionVectors
            },
            DlssRayReconstructionSpecularGuide::SpecularHitDistance { .. } => {
                ResourceSlot::SpecularHitDistance
            },
        }
    }

    /// The view of the specular motion vectors, where the guide is one.
    pub open spec fn motion_vectors(self) -> Option<TextureView> {
        match self {
            DlssRayReconstructionSpecularGuide::SpecularMotionVectors(view) => Some(view),
            DlssRayReconstructionSpecularGuide::SpecularHitDistance { .. } => None,
        }
    }

    /// The view of the specular hit distance, where the guide is one.
    pub open spec fn hit_distance(self) -> Option<TextureView> {
        match self {
            DlssRayReconstructionSpecularGuide::SpecularMotionVectors(_) => None,
            DlssRayReconstructionSpecularGuide::SpecularHitDistance { texture_view, .. } => Some(
                texture_view,
            ),
        }
    }

    /// The camera matrix from world space to view space, which comes with the
    /// specular hit distance only.
    pub open spec fn world_to_view(self) -> Option<Matrix4> {
        match self {
            DlssRayReconstructionSpecularGuide::SpecularMotionVectors(_) => None,
            DlssRayReconstructionSpecularGuide::SpecularHitDistance {
                world_to_view_matrix,
                ..
            } => Some(world_to_view_matrix),
        }
    }

    /// The camera matrix from view space to clip space, which comes with the
    /// specular hit distance only.
    pub open spec fn view_to_clip(self) -> Option<Matrix4> {
        match self {
            DlssRayReconstructionSpecularGuide::SpecularMotionVectors(_) => None,
            DlssRayReconstructionSpecularGuide::SpecularHitDistance {
                view_to_clip_matrix,
                ..
            } => Some(view_to_clip_matrix),
        }
    }
}

/// Input and output resources of one evaluation of
/// [`DlssRayReconstruction`], with the camera state that goes with them.
#[derive(Clone, Copy, Debug, PartialEq, Eq)]
pub struct DlssRayReconstructionRenderParameters {
    /// Diffuse albedo.
    pub diffuse_albedo: TextureView,
    /// Specular albedo.
    pub specular_albedo: TextureView,
    /// Normals, in view space or in world space. With
    /// [`DlssRayReconstructionRoughnessMode::Packed`] the alpha channel holds
    /// the linear roughness of the material.
    pub normals: TextureView,
    /// Linear roughness of the material, to be supplied with
    /// [`DlssRayReconstructionRoughnessMode::Unpacked`].
    pub roughness: Option<TextureView>,
    /// Main color view of the camera.
    pub color: TextureView,
    /// Depth buffer, in the form that [`DlssRayReconstructionDepthMode`]
    /// names.
    pub depth: TextureView,
    /// Motion vectors.
    pub motion_vectors: TextureView,
    /// Guide for specular materials.
    pub specular_guide: DlssRayReconstructionSpecularGuide,
    /// Guide for subsurface scattering in screen space.
    pub screen_space_subsurface_scattering_guide: Option<TextureView>,
    /// Optional per-pixel bias that makes the upscaling more reactive.
    pub bias: Option<TextureView>,
    /// The texture that the result is written to.
    pub dlss_output: TextureView,
    /// Whether the temporal history is to be reset, as at a camera cut.
    pub reset: bool,
    /// Subpixel jitter that was applied to the camera.
    pub jitter_offset: Float2,
    /// Use only a part of this size of the input textures, from their origin
    /// on, in place of the whole textures.
    pub partial_texture_size: Option<Resolution>,
    /// Scale to apply to the values of the motion vectors.
    pub motion_vector_scale: Option<Float2>,
}

impl DlssRayReconstructionRenderParameters {
    /// The transitions of the inputs that every evaluation has, in order.
    pub open spec fn leading_barriers(self) -> Seq<TextureTransition> {
        seq![
            input_transition(ResourceSlot::DiffuseAlbedo, self.diffuse_albedo),
            input_transition(ResourceSlot::SpecularAlbedo, self.specular_albedo),
            input_transition(ResourceSlot::Normals, self.normals),
        ] + optional_input_transitions(ResourceSlot::Roughness, self.roughness) + seq![
            input_transition(ResourceSlot::Color, self.color),
            input_transition(ResourceSlot::Depth, self.depth),
            input_transition(ResourceSlot::MotionVectors, self.motion_vectors),
            input_transition(self.specular_guide.slot(), self.specular_guide.texture()),
        ]
    }

    /// The transitions that have to be recorded before the evaluation, in
    /// order: one for each input that is supplied, into the read-only state,
    /// and last the one of the output, into read-write storage. A view that is
    /// supplied in two places gets two entries.
    pub open spec fn barriers(self) -> Seq<TextureTransition> {
        self.leading_barriers() + optional_input_transitions(
            ResourceSlot::ScreenSpaceSubsurfaceScatteringGuide,
            self.screen_space_subsurface_scattering_guide,
        ) + optional_input_transitions(ResourceSlot::Bias, self.bias) + seq![
            output_transition(self.dlss_output),
        ]
    }

    /// How many input views are supplied.
    pub open spec fn input_count(self) -> nat {
        7 + count_present(self.roughness) + count_present(
            self.screen_space_subsurface_scattering_guide,
        ) + count_present(self.bias)
    }

    /// Checks the parameters against each other. No combination of them is
    /// refused.
    pub fn validate(&self) -> (checked: Result<(), DlssError>)
        ensures
            checked is Ok,
    {
        Ok(())
    }

    /// Lists the transitions that have to be recorded before the evaluation.
    pub fn barrier_list(&self) -> (transitions: Vec<TextureTransition>)
        ensures
            transitions@ == self.barriers(),
    {
        let mut transitions: Vec<TextureTransition> = Vec::new();
        push_input_transition(&mut transitions, ResourceSlot::DiffuseAlbedo, &self.diffuse_albedo);
        push_input_transition(
            &mut transitions,
            ResourceSlot::SpecularAlbedo,
            &self.specular_albedo,
        );
        push_input_transition(&mut transitions, ResourceSlot::Normals, &self.normals);
        assert(transitions@ =~= seq![
            input_transition(ResourceSlot::DiffuseAlbedo, self.diffuse_albedo),
            input_transition(ResourceSlot::SpecularAlbedo, self.specular_albedo),
            input_transition(ResourceSlot::Normals, self.normals),
        ]);
        push_optional_input_transition(&mut transitions, ResourceSlot::Roughness, &self.roughness);
        let ghost with_roughness = transitions@;
        push_input_transition(&mut transitions, ResourceSlot::Color, &self.color);
        push_input_transition(&mut transitions, ResourceSlot::Depth, &self.depth);
        push_input_transition(&mut transitions, ResourceSlot::MotionVectors, &self.motion_vectors);
        match &self.specular_guide {
            DlssRayReconstructionSpecularGuide::SpecularMotionVectors(view) => {
                push_input_transition(
                    &mut transitions,
                    ResourceSlot::SpecularMotionVectors,
                    view,
                );
            },
            DlssRayReconstructionSpecularGuide::SpecularHitDistance { texture_view, .. } => {
                push_input_transition(
                    &mut transitions,
                    ResourceSlot::SpecularHitDistance,
                    texture_view,
                );
            },
        }
        assert(transitions@ =~= with_roughness + seq![
            input_transition(ResourceSlot::Color, self.color),
            input_transition(ResourceSlot::Depth, self.depth),
            input_transition(ResourceSlot::MotionVectors, self.motion_vectors),
            input_transition(self.specular_guide.slot(), self.specular_guide.texture()),
        ]);
        push_optional_input_transition(
            &mut transitions,
            ResourceSlot::ScreenSpaceSubsurfaceScatteringGuide,
            &self.screen_space_subsurface_scattering_guide,
        );
        push_optional_input_transition(&mut transitions, ResourceSlot::Bias, &self.bias);
        push_output_transition(&mut transitions, &self.dlss_output);
        transitions
    }

    /// Among the transitions of an evaluation exactly one leads into
    /// read-write storage, and as many lead into the read-only state as input
    /// views are supplied.
    pub proof fn lemma_barrier_counts(self)
        ensures
            count_in_state(self.barriers(), TextureState::StorageReadWrite) == 1,
            count_in_state(self.barriers(), TextureState::Resource) == self.input_count(),
            self.barriers().len() == self.input_count() + 1,
            self.barriers().last() == output_transition(self.dlss_output),
    {
        let empty = Seq::<TextureTransition>::empty();
        assert(count_in_state(empty, TextureState::Resource) == 0);
        assert(count_in_state(empty, TextureState::StorageReadWrite) == 0);
        lemma_count_push_input(empty, ResourceSlot::DiffuseAlbedo, self.diffuse_albedo);
        let one = empty + seq![input_transition(ResourceSlot::DiffuseAlbedo, self.diffuse_albedo)];
        lemma_count_push_input(one, ResourceSlot::SpecularAlbedo, self.specular_albedo);
        let two = one + seq![input_transition(ResourceSlot::SpecularAlbedo, self.specular_albedo)];
        lemma_count_push_input(two, ResourceSlot::Normals, self.normals);
        let three = two + seq![input_transition(ResourceSlot::Normals, self.normals)];
        assert(three =~= seq![
            input_transition(ResourceSlot::DiffuseAlbedo, self.diffuse_albedo),
            input_transition(ResourceSlot::SpecularAlbedo, self.specular_albedo),
            input_transition(ResourceSlot::Normals, self.normals),
        ]);
        lemma_count_push_optional_input(three, ResourceSlot::Roughness, self.roughness);
        let rough = three + optional_input_transitions(ResourceSlot::Roughness, self.roughness);
        lemma_count_push_input(rough, ResourceSlot::Color, self.color);
        let four = rough + seq![input_transition(ResourceSlot::Color, self.color)];
        lemma_count_push_input(four, ResourceSlot::Depth, self.depth);
        let five = four + seq![input_transition(ResourceSlot::Depth, self.depth)];
        lemma_count_push_input(five, ResourceSlot::MotionVectors, self.motion_vectors);
        let six = five + seq![input_transition(ResourceSlot::MotionVectors, self.motion_vectors)];
        lemma_count_push_input(six, self.specular_guide.slot(), self.specular_guide.texture());
        let seven = six + seq![
            input_transition(self.specular_guide.slot(), self.specular_guide.texture()),
        ];
        assert(seven =~= self.leading_barriers());
        lemma_count_push_optional_input(
            seven,
            ResourceSlot::ScreenSpaceSubsurfaceScatteringGuide,
            self.screen_space_subsurface_scattering_guide,
        );
        let guided = seven + optional_input_transitions(
            ResourceSlot::ScreenSpaceSubsurfaceScatteringGuide,
            self.screen_space_subsurface_scattering_guide,
        );
        lemma_count_push_optional_input(guided, ResourceSlot::Bias, self.bias);
        let inputs = guided + optional_input_transitions(ResourceSlot::Bias, self.bias);
        lemma_count_push_output(inputs, self.dlss_output);
    }
}

/// What the runtime is asked to create for a [`DlssRayReconstruction`].
#[derive(Clone, Copy, Debug, PartialEq, Eq, Structural)]
pub struct DlssRayReconstructionCreateParams {
    pub denoise_mode: DlssRayReconstructionDenoiseMode,
    pub roughness_mode: DlssRayReconstructionRoughnessMode,
    pub depth_mode: DlssRayReconstructionDepthMode,
    /// The resolution that the camera renders at.
    pub render_resolution: Resolution,
    /// The resolution that the feature puts out.
    pub target_resolution: Resolution,
    /// The runtime's quality value for the chosen mode.
    pub perf_quality_value: u32,
    pub feature_create_flags: i32,
    pub enable_output_subrects: bool,
}

/// The resolution that a feature renders at: the resolution that it puts out
/// where the mode asks for exactly that, whatever the runtime has answered,
/// and else the resolution that the runtime recommends.
pub open spec fn chosen_render_resolution(
    upscaled_resolution: Resolution,
    perf_quality_mode: DlssPerfQualityMode,
    settings: OptimalSettings,
) -> Resolution {
    if perf_quality_mode.is_exact_resolution() {
        upscaled_resolution
    } else {
        settings.optimal_render_resolution
    }
}

/// The creation request that follows from the caller's choices and the
/// runtime's answer.
pub open spec fn create_params_for(
    upscaled_resolution: Resolution,
    perf_quality_mode: DlssPerfQualityMode,
    perf_quality_value: u32,
    feature_flags: DlssFeatureFlags,
    roughness_mode: DlssRayReconstructionRoughnessMode,
    depth_mode: DlssRayReconstructionDepthMode,
    settings: OptimalSettings,
) -> DlssRayReconstructionCreateParams {
    DlssRayReconstructionCreateParams {
        denoise_mode: DlssRayReconstructionDenoiseMode::Unified,
        roughness_mode,
        depth_mode,
        render_resolution: chosen_render_resolution(
            upscaled_resolution,
            perf_quality_mode,
            settings,
        ),
        target_resolution: upscaled_resolution,
        perf_quality_value,
        feature_create_flags: feature_flags.create_flags,
        enable_output_subrects: feature_flags.output_subrect,
    }
}

/// What the runtime is handed for one evaluation of a
/// [`DlssRayReconstruction`]. A resource that is `None` is handed over as
/// absent.
#[derive(Clone, Copy, Debug, PartialEq, Eq)]
pub struct DlssRayReconstructionEvalParams {
    pub diffuse_albedo: NativeResource,
    pub specular_albedo: NativeResource,
    pub normals: NativeResource,
    pub roughness: Option<NativeResource>,
    pub color: NativeResource,
    pub output: NativeResource,
    pub depth: NativeResource,
    pub motion_vectors: NativeResource,
    pub specular_motion_vectors: Option<NativeResource>,
    pub specular_hit_distance: Option<NativeResource>,
    pub world_to_view_matrix: Option<Matrix4>,
    pub view_to_clip_matrix: Option<Matrix4>,
    pub screen_space_subsurface_scattering_guide: Option<NativeResource>,
    pub bias_current_color_mask: Option<NativeResource>,
    pub exposure_texture: Option<NativeResource>,
    pub jitter_offset: Float2,
    pub render_subrect_dimensions: Resolution,
    pub reset: bool,
    pub motion_vector_scale: Float2,
    /// Where in each resource the part to evaluate begins.
    pub subrect_base: Coordinates,
    pub pre_exposure: Float32,
    pub exposure_scale: Float32,
}

/// One evaluation, ready to be recorded: first the transitions, then the
/// call of the runtime on the feature with the parameters.
#[derive(Debug, PartialEq, Eq)]
pub struct DlssRayReconstructionEvaluation {
    pub transitions: Vec<TextureTransition>,
    pub feature: FeatureHandle,
    pub parameters: DlssRayReconstructionEvalParams,
}

/// The parameters of an evaluation at a given render resolution: every view
/// that is supplied is described afresh, every other resource is absent, the
/// part to evaluate begins at the origin of each resource, and the exposure is
/// left to the runtime.
pub open spec fn eval_params_for(
    render_resolution: Resolution,
    render_parameters: DlssRayReconstructionRenderParameters,
) -> DlssRayReconstructionEvalParams {
    DlssRayReconstructionEvalParams {
        diffuse_albedo: native_resource(render_parameters.diffuse_albedo),
        specular_albedo: native_resource(render_parameters.specular_albedo),
        normals: native_resource(render_parameters.normals),
        roughness: optional_native_resource(render_parameters.roughness),
        color: native_resource(render_parameters.color),
        output: native_resource(render_parameters.dlss_output),
        depth: native_resource(render_parameters.depth),
        motion_vectors: native_resource(render_parameters.motion_vectors),
        specular_motion_vectors: optional_native_resource(
            render_parameters.specular_guide.motion_vectors(),
        ),
        specular_hit_distance: optional_native_resource(
            render_parameters.specular_guide.hit_distance(),
        ),
        world_to_view_matrix: render_parameters.specular_guide.world_to_view(),
        view_to_clip_matrix: render_parameters.specular_guide.view_to_clip(),
        screen_space_subsurface_scattering_guide: optional_native_resource(
            render_parameters.screen_space_subsurface_scattering_guide,
        ),
        bias_current_color_mask: optional_native_resource(render_parameters.bias),
        exposure_texture: None,
        jitter_offset: render_parameters.jitter_offset,
        render_subrect_dimensions: effective_subrect(
            render_parameters.partial_texture_size,
            render_resolution,
        ),
        reset: render_parameters.reset,
        motion_vector_scale: effective_motion_vector_scale(render_parameters.motion_vector_scale),
        subrect_base: Coordinates::spec_origin(),
        pre_exposure: Float32 { bits: ZERO_BITS },
        exposure_scale: Float32 { bits: ZERO_BITS },
    }
}

/// Camera-specific state of upscaling that is guided by denoising inputs.
///
/// Making one is expensive: keep it, and make a new one only when the
/// settings change.
#[derive(Debug)]
pub struct DlssRayReconstruction {
    upscaled_resolution: Resolution,
    render_resolution: Resolution,
    feature: FeatureHandle,
}

impl DlssRayReconstruction {
    /// The resolution that the feature puts out.
    pub closed spec fn spec_upscaled_resolution(&self) -> Resolution {
        self.upscaled_resolution
    }

    /// The resolution that the camera should render at.
    pub closed spec fn spec_render_resolution(&self) -> Resolution {
        self.render_resolution
    }

    /// The native handle of the context's feature.
    pub closed spec fn spec_feature(&self) -> FeatureHandle {
        self.feature
    }

    /// Works out what to ask the runtime to create, from the caller's choices
    /// and the runtime's answer to the question at which resolutions to
    /// render. Where the runtime failed to answer, its error is handed on and
    /// nothing is to be created.
    pub fn create_params(
        upscaled_resolution: Resolution,
        perf_quality_mode: DlssPerfQualityMode,
        perf_quality_value: u32,
        feature_flags: DlssFeatureFlags,
        roughness_mode: DlssRayReconstructionRoughnessMode,
        depth_mode: DlssRayReconstructionDepthMode,
        optimal_settings: Result<OptimalSettings, DlssError>,
    ) -> (request: Result<DlssRayReconstructionCreateParams, DlssError>)
        ensures
            match optimal_settings {
                Ok(settings) => request == Ok::<DlssRayReconstructionCreateParams, DlssError>(
                    create_params_for(
                        upscaled_resolution,
                        perf_quality_mode,
                        perf_quality_value,
                        feature_flags,
                        roughness_mode,
                        depth_mode,
                        settings,
                    ),
                ),
                Err(error) => request == Err::<DlssRayReconstructionCreateParams, DlssError>(
                    error,
                ),
            },
    {
        let settings = match optimal_settings {
            Ok(settings) => settings,
            Err(error) => {
                return Err(error);
            },
        };
        let mut optimal_render_resolution = settings.optimal_render_resolution;
        if perf_quality_mode.renders_at_output_resolution() {
            optimal_render_resolution = upscaled_resolution;
        }
        Ok(
            DlssRayReconstructionCreateParams {
                denoise_mode: DlssRayReconstructionDenoiseMode::Unified,
                roughness_mode,
                depth_mode,
                render_resolution: optimal_render_resolution,
                target_resolution: upscaled_resolution,
                perf_quality_value,
                feature_create_flags: feature_flags.create_flags,
                enable_output_subrects: feature_flags.output_subrect,
            },
        )
    }

    /// Makes the context of a feature that the runtime was asked to create
    /// with `create_params`. Where the runtime failed to create it, its error
    /// is handed on and there is no context.
    pub fn new(
        create_params: &DlssRayReconstructionCreateParams,
        feature: Result<FeatureHandle, DlssError>,
    ) -> (context: Result<Self, DlssError>)
        ensures
            match feature {
                Ok(handle) => {
                    &&& context is Ok
                    &&& context->Ok_0.upscaled_resolution() == create_params.target_resolution
                    &&& context->Ok_0.render_resolution() == create_params.render_resolution
                    &&& context->Ok_0.feature() == handle
                },
                Err(error) => context is Err && context->Err_0 == error,
            },
    {
        match feature {
            Ok(handle) => Ok(
                DlssRayReconstruction {
                    upscaled_resolution: create_params.target_resolution,
                    render_resolution: create_params.render_resolution,
                    feature: handle,
                },
            ),
            Err(error) => Err(error),
        }
    }

    /// Assembles one evaluation: the transitions to record, and what to hand
    /// to the runtime for the context's feature.
    pub fn render(&self, render_parameters: &DlssRayReconstructionRenderParameters) -> (evaluation:
        Result<DlssRayReconstructionEvaluation, DlssError>)
        ensures
            evaluation is Ok,
            evaluation->Ok_0.transitions@ == render_parameters.barriers(),
            evaluation->Ok_0.feature == self.feature(),
            evaluation->Ok_0.parameters == eval_params_for(
                self.render_resolution(),
                *render_parameters,
            ),
    {
        render_parameters.validate()?;

        let partial_texture_size = match render_parameters.partial_texture_size {
            Some(size) => size,
            None => self.render_resolution,
        };
        let motion_vector_scale = match render_parameters.motion_vector_scale {
            Some(scale) => scale,
            None => Float2::one(),
        };

        let parameters = DlssRayReconstructionEvalParams {
            diffuse_albedo: texture_to_ngx_resource(&render_parameters.diffuse_albedo),
            specular_albedo: texture_to_ngx_resource(&render_parameters.specular_albedo),
            normals: texture_to_ngx_resource(&render_parameters.normals),
            roughness: optional_texture_to_ngx_resource(&render_parameters.roughness),
            color: texture_to_ngx_resource(&render_parameters.color),
            output: texture_to_ngx_resource(&render_parameters.dlss_output),
            depth: texture_to_ngx_resource(&render_parameters.depth),
            motion_vectors: texture_to_ngx_resource(&render_parameters.motion_vectors),
            specular_motion_vectors: match &render_parameters.specular_guide {
                DlssRayReconstructionSpecularGuide::SpecularMotionVectors(view) => Some(
                    texture_to_ngx_resource(view),
                ),
                DlssRayReconstructionSpecularGuide::SpecularHitDistance { .. } => None,
            },
            specular_hit_distance: match &render_parameters.specular_guide {
                DlssRayReconstructionSpecularGuide::SpecularMotionVectors(_) => None,
                DlssRayReconstructionSpecularGuide::SpecularHitDistance {
                    texture_view,
                    ..
                } => Some(texture_to_ngx_resource(texture_view)),
            },
            world_to_view_matrix: match &render_parameters.specular_guide {
                DlssRayReconstructionSpecularGuide::SpecularMotionVectors(_) => None,
                DlssRayReconstructionSpecularGuide::SpecularHitDistance {
                    world_to_view_matrix,
                    ..
                } => Some(*world_to_view_matrix),
            },
            view_to_clip_matrix: match &render_parameters.specular_guide {
                DlssRayReconstructionSpecularGuide::SpecularMotionVectors(_) => None,
                DlssRayReconstructionSpecularGuide::SpecularHitDistance {
                    view_to_clip_matrix,
                    ..
                } => Some(*view_to_clip_matrix),
            },
            screen_space_subsurface_scattering_guide: optional_texture_to_ngx_resource(
                &render_parameters.screen_space_subsurface_scattering_guide,
            ),
            bias_current_color_mask: optional_texture_to_ngx_resource(&render_parameters.bias),
            exposure_texture: None,
            jitter_offset: render_parameters.jitter_offset,
            render_subrect_dimensions: partial_texture_size,
            reset: render_parameters.reset,
            motion_vector_scale,
            subrect_base: Coordinates::origin(),
            pre_exposure: Float32::zero(),
            exposure_scale: Float32::zero(),
        };

        Ok(
            DlssRayReconstructionEvaluation {
                transitions: render_parameters.barrier_list(),
                feature: self.feature,
                parameters,
            },
        )
    }

    /// The number of jitter positions before the sequence repeats, for a
    /// camera that renders at `render_resolution`. There is no least number:
    /// a camera that renders at nearly three times the output width or more
    /// has none.
    pub open spec fn jitter_phases(&self, render_resolution: Resolution) -> nat {
        phase_count(self.upscaled_resolution().width as nat, render_resolution.width as nat, 0)
    }

    /// Whether there is a jitter position at all for a camera that renders at
    /// `render_resolution`.
    pub fn has_jitter_phases(&self, render_resolution: Resolution) -> (jittered: bool)
        ensures
            jittered == (render_resolution.width > 0 && self.jitter_phases(render_resolution)
                > 0),
    {
        render_resolution.width > 0 && jitter_phase_count(
            self.upscaled_resolution.width,
            render_resolution.width,
            0,
        ) > 0
    }

    /// Suggested subpixel jitter of the camera for a given frame.
    pub fn suggested_jitter(&self, frame_number: u32, render_resolution: Resolution) -> (offset:
        JitterOffset)
        requires
            render_resolution.width > 0,
            self.jitter_phases(render_resolution) > 0,
        ensures
            (offset.x@, offset.y@) == jitter_offset(
                frame_number as nat,
                self.jitter_phases(render_resolution),
            ),
            offset.x@.in_centered_unit_range(),
            offset.y@.in_centered_unit_range(),
    {
        let phases = jitter_phase_count(self.upscaled_resolution.width, render_resolution.width, 0);
        suggested_jitter(frame_number, phases)
    }

    /// Begins the destruction of the context. The context is given up; what
    /// is returned says, step by step, what the host has to do to release the
    /// feature.
    pub fn destroy(self) -> (teardown: Teardown)
        ensures
            teardown == (Teardown { feature: self.feature(), state: TeardownState::Alive }),
    {
        Teardown::new(self.feature)
    }

    /// The resolution that the feature puts out.
    #[verifier::when_used_as_spec(spec_upscaled_resolution)]
    pub fn upscaled_resolution(&self) -> (resolution: Resolution)
        ensures
            resolution == self.upscaled_resolution(),
    {
        self.upscaled_resolution
    }

    /// The resolution that the camera should render at, before upscaling.
    #[verifier::when_used_as_spec(spec_render_resolution)]
    pub fn render_resolution(&self) -> (resolution: Resolution)
        ensures
            resolution == self.render_resolution(),
    {
        self.render_resolution
    }

    /// The native handle of the context's feature.
    #[verifier::when_used_as_spec(spec_feature)]
    pub fn feature(&self) -> (handle: FeatureHandle)
        ensures
            handle == self.feature(),
    {
        self.feature
    }
}

/// In the mode that asks for exactly the output resolution, a feature renders
/// at the resolution that it puts out, whatever the runtime has answered.
pub proof fn lemma_exact_resolution_overrides_settings(
    upscaled_resolution: Resolution,
    perf_quality_value: u32,
    feature_flags: DlssFeatureFlags,
    roughness_mode: DlssRayReconstructionRoughnessMode,
    depth_mode: DlssRayReconstructionDepthMode,
    settings: OptimalSettings,
)
    ensures
        create_params_for(
            upscaled_resolution,
            DlssPerfQualityMode::Dlaa,
            perf_quality_value,
            feature_flags,
            roughness_mode,
            depth_mode,
            settings,
        ).render_resolution == upscaled_resolution,
{
}

/// Where the runtime recommends a resolution that is no larger than the
/// output resolution, a feature renders at no more than the resolution that it
/// puts out, in every mode.
pub proof fn lemma_render_resolution_within_output(
    upscaled_resolution: Resolution,
    perf_quality_mode: DlssPerfQualityMode,
    perf_quality_value: u32,
    feature_flags: DlssFeatureFlags,
    roughness_mode: DlssRayReconstructionRoughnessMode,
    depth_mode: DlssRayReconstructionDepthMode,
    settings: OptimalSettings,
)
    requires
        settings.optimal_render_resolution.fits_within(upscaled_resolution),
    ensures
        create_params_for(
            upscaled_resolution,
            perf_quality_mode,
            perf_quality_value,
            feature_flags,
            roughness_mode,
            depth_mode,
            settings,
        ).render_resolution.fits_within(upscaled_resolution),
{
}

} // verus!
