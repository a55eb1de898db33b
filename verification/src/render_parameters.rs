use crate::error::DlssError;
use crate::resolution::Resolution;
use crate::scalar::{Float2, Float32, ONE_BITS, ZERO_BITS};
use vstd::prelude::*;

verus! {

/// Aspect mask bit of the color aspect of an image.
pub const IMAGE_ASPECT_COLOR: u32 = 0x1;

/// Aspect mask bit of the depth aspect of an image.
pub const IMAGE_ASPECT_DEPTH: u32 = 0x2;

/// Level count that stands for every mip level from the base level on.
pub const REMAINING_MIP_LEVELS: u32 = 0xFFFF_FFFF;

/// Layer count that stands for every array layer from the base layer on.
pub const REMAINING_ARRAY_LAYERS: u32 = 0xFFFF_FFFF;

/// What is read of a texture when it is bound for the runtime.
#[derive(Clone, Copy, Debug, PartialEq, Eq)]
pub struct Texture {
    /// Native handle of the image.
    pub image_handle: u64,
    /// Whether the texture's format has a color aspect.
    pub has_color_aspect: bool,
    /// The texture's format, as the native API numbers it.
    pub native_format: i32,
    pub width: u32,
    pub height: u32,
    /// Whether the texture was created with a usage that allows binding it
    /// as a storage texture.
    pub storage_binding: bool,
}

/// What is read of a view of a texture when it is bound for the runtime.
#[derive(Clone, Copy, Debug, PartialEq, Eq)]
pub struct TextureView {
    /// Native handle of the image view.
    pub view_handle: u64,
    /// The texture that the view looks at.
    pub texture: Texture,
}

/// The part of an image that a native resource descriptor covers.
#[derive(Clone, Copy, Debug, PartialEq, Eq)]
pub struct ImageSubresourceRange {
    pub aspect_mask: u32,
    pub base_mip_level: u32,
    pub level_count: u32,
    pub base_array_layer: u32,
    pub layer_count: u32,
}

/// A texture view in the form in which the runtime takes resources.
#[derive(Clone, Copy, Debug, PartialEq, Eq)]
pub struct NativeResource {
    pub image_view: u64,
    pub image: u64,
    pub subresource_range: ImageSubresourceRange,
    pub format: i32,
    pub width: u32,
    pub height: u32,
    /// Whether the runtime may take its read-write path to the resource.
    pub read_write: bool,
}

/// The descriptor of a view: both native handles, the color aspect for a
/// format that has one and the depth aspect otherwise, every mip level and
/// array layer, and format, size and storage capability of the texture.
pub open spec fn native_resource(view: TextureView) -> NativeResource {
    NativeResource {
        image_view: view.view_handle,
        image: view.texture.image_handle,
        subresource_range: ImageSubresourceRange {
            aspect_mask: if view.texture.has_color_aspect {
                IMAGE_ASPECT_COLOR
            } else {
                IMAGE_ASPECT_DEPTH
            },
            base_mip_level: 0,
            level_count: REMAINING_MIP_LEVELS,
            base_array_layer: 0,
            layer_count: REMAINING_ARRAY_LAYERS,
        },
        format: view.texture.native_format,
        width: view.texture.width,
        height: view.texture.height,
        read_write: view.texture.storage_binding,
    }
}

/// The descriptor of an optional view: absent where the view is.
pub open spec fn optional_native_resource(view: Option<TextureView>) -> Option<NativeResource> {
    match view {
        Some(view) => Some(native_resource(view)),
        None => None,
    }
}

/// Describes a texture view to the runtime.
///
/// The descriptor is made anew from the view on every call; nothing of an
/// earlier call is kept.
pub fn texture_to_ngx_resource(texture_view: &TextureView) -> (resource: NativeResource)
    ensures
        resource == native_resource(*texture_view),
{
    let texture = texture_view.texture;
    NativeResource {
        image_view: texture_view.view_handle,
        image: texture.image_handle,
        subresource_range: ImageSubresourceRange {
            aspect_mask: if texture.has_color_aspect {
                IMAGE_ASPECT_COLOR
            } else {
                IMAGE_ASPECT_DEPTH
            },
            base_mip_level: 0,
            level_count: REMAINING_MIP_LEVELS,
            base_array_layer: 0,
            layer_count: REMAINING_ARRAY_LAYERS,
        },
        format: texture.native_format,
        width: texture.width,
        height: texture.height,
        read_write: texture.storage_binding,
    }
}

/// Describes an optional texture view to the runtime: an absent view stays
/// absent.
pub fn optional_texture_to_ngx_resource(texture_view: &Option<TextureView>) -> (resource: Option<
    NativeResource,
>)
    ensures
        resource == optional_native_resource(*texture_view),
{
    match texture_view {
        Some(view) => Some(texture_to_ngx_resource(view)),
        None => None,
    }
}

/// The state that a texture has to be in when the runtime evaluates.
#[derive(Clone, Copy, Debug, PartialEq, Eq, Structural)]
pub enum TextureState {
    /// Read-only, sampled or fetched.
    Resource,
    /// Read-write storage.
    StorageReadWrite,
}

/// The place that a texture view takes among the resources of an evaluation.
#[derive(Clone, Copy, Debug, PartialEq, Eq, Structural)]
pub enum ResourceSlot {
    DiffuseAlbedo,
    SpecularAlbedo,
    Normals,
    Roughness,
    Color,
    Depth,
    MotionVectors,
    SpecularMotionVectors,
    SpecularHitDistance,
    ScreenSpaceSubsurfaceScatteringGuide,
    Exposure,
    Bias,
    Output,
}

/// A transition of one whole texture into the state that the runtime needs.
#[derive(Clone, Copy, Debug, PartialEq, Eq, Structural)]
pub struct TextureTransition {
    /// The place of the view that the texture was supplied through.
    pub slot: ResourceSlot,
    /// Native handle of the image of the texture to transition.
    pub texture: u64,
    /// The state to transition to.
    pub state: TextureState,
}

/// The transition of an input: its texture becomes a read-only resource.
pub open spec fn input_transition(slot: ResourceSlot, view: TextureView) -> TextureTransition {
    TextureTransition { slot, texture: view.texture.image_handle, state: TextureState::Resource }
}

/// The transition of the output: its texture becomes read-write storage.
pub open spec fn output_transition(view: TextureView) -> TextureTransition {
    TextureTransition {
        slot: ResourceSlot::Output,
        texture: view.texture.image_handle,
        state: TextureState::StorageReadWrite,
    }
}

/// The transitions of an optional input: one where the view is supplied,
/// none where it is not.
pub open spec fn optional_input_transitions(slot: ResourceSlot, view: Option<TextureView>) -> Seq<
    TextureTransition,
> {
    match view {
        Some(view) => seq![input_transition(slot, view)],
        None => Seq::empty(),
    }
}

/// How many of the transitions lead into `state`.
pub open spec fn count_in_state(transitions: Seq<TextureTransition>, state: TextureState) -> nat
    decreases transitions.len(),
{
    if transitions.len() == 0 {
        0
    } else {
        let rest = count_in_state(transitions.drop_last(), state);
        if transitions.last().state == state {
            rest + 1
        } else {
            rest
        }
    }
}

/// One if the value is there, zero if it is not.
pub open spec fn count_present<T>(value: Option<T>) -> nat {
    if value is Some {
        1
    } else {
        0
    }
}

/// Counting over two lists in a row is counting over each and adding up.
pub proof fn lemma_count_in_state_add(
    front: Seq<TextureTransition>,
    back: Seq<TextureTransition>,
    state: TextureState,
)
    ensures
        count_in_state(front + back, state) == count_in_state(front, state) + count_in_state(
            back,
            state,
        ),
    decreases back.len(),
{
    if back.len() == 0 {
        assert(front + back =~= front);
    } else {
        assert((front + back).drop_last() =~= front + back.drop_last());
        assert((front + back).last() == back.last());
        lemma_count_in_state_add(front, back.drop_last(), state);
    }
}

/// A list of one transition counts one in that transition's state and zero
/// in the other.
pub proof fn lemma_count_in_state_single(transition: TextureTransition, state: TextureState)
    ensures
        count_in_state(seq![transition], state) == if transition.state == state {
            1nat
        } else {
            0nat
        },
{
    let single = seq![transition];
    assert(single.drop_last() =~= Seq::<TextureTransition>::empty());
    assert(single.last() == transition);
    assert(count_in_state(single.drop_last(), state) == 0);
}

/// The transitions of an optional input count as many read-only entries as
/// there are views, and no read-write entry.
pub proof fn lemma_count_optional_input(slot: ResourceSlot, view: Option<TextureView>)
    ensures
        count_in_state(optional_input_transitions(slot, view), TextureState::Resource)
            == count_present(view),
        count_in_state(optional_input_transitions(slot, view), TextureState::StorageReadWrite)
            == 0,
{
    match view {
        Some(v) => {
            lemma_count_in_state_single(input_transition(slot, v), TextureState::Resource);
            lemma_count_in_state_single(input_transition(slot, v), TextureState::StorageReadWrite);
        },
        None => {},
    }
}

/// An input added to a list adds one read-only entry and no read-write entry.
pub proof fn lemma_count_push_input(
    front: Seq<TextureTransition>,
    slot: ResourceSlot,
    view: TextureView,
)
    ensures
        count_in_state(front + seq![input_transition(slot, view)], TextureState::Resource)
            == count_in_state(front, TextureState::Resource) + 1,
        count_in_state(front + seq![input_transition(slot, view)], TextureState::StorageReadWrite)
            == count_in_state(front, TextureState::StorageReadWrite),
        (front + seq![input_transition(slot, view)]).len() == front.len() + 1,
{
    let back = seq![input_transition(slot, view)];
    lemma_count_in_state_add(front, back, TextureState::Resource);
    lemma_count_in_state_add(front, back, TextureState::StorageReadWrite);
    lemma_count_in_state_single(input_transition(slot, view), TextureState::Resource);
    lemma_count_in_state_single(input_transition(slot, view), TextureState::StorageReadWrite);
}

/// An optional input added to a list adds one read-only entry where it is
/// supplied, and no read-write entry.
pub proof fn lemma_count_push_optional_input(
    front: Seq<TextureTransition>,
    slot: ResourceSlot,
    view: Option<TextureView>,
)
    ensures
        count_in_state(front + optional_input_transitions(slot, view), TextureState::Resource)
            == count_in_state(front, TextureState::Resource) + count_present(view),
        count_in_state(
            front + optional_input_transitions(slot, view),
            TextureState::StorageReadWrite,
        ) == count_in_state(front, TextureState::StorageReadWrite),
        (front + optional_input_transitions(slot, view)).len() == front.len() + count_present(
            view,
        ),
{
    let back = optional_input_transitions(slot, view);
    lemma_count_in_state_add(front, back, TextureState::Resource);
    lemma_count_in_state_add(front, back, TextureState::StorageReadWrite);
    lemma_count_optional_input(slot, view);
}

/// The output added to a list adds one read-write entry, which is then the
/// last, and no read-only entry.
pub proof fn lemma_count_push_output(front: Seq<TextureTransition>, view: TextureView)
    ensures
        count_in_state(front + seq![output_transition(view)], TextureState::Resource)
            == count_in_state(front, TextureState::Resource),
        count_in_state(front + seq![output_transition(view)], TextureState::StorageReadWrite)
            == count_in_state(front, TextureState::StorageReadWrite) + 1,
        (front + seq![output_transition(view)]).len() == front.len() + 1,
        (front + seq![output_transition(view)]).last() == output_transition(view),
{
    let back = seq![output_transition(view)];
    lemma_count_in_state_add(front, back, TextureState::Resource);
    lemma_count_in_state_add(front, back, TextureState::StorageReadWrite);
    lemma_count_in_state_single(output_transition(view), TextureState::Resource);
    lemma_count_in_state_single(output_transition(view), TextureState::StorageReadWrite);
}

/// Appends the transition of an input to the list.
pub fn push_input_transition(
    transitions: &mut Vec<TextureTransition>,
    slot: ResourceSlot,
    view: &TextureView,
)
    ensures
        final(transitions)@ == old(transitions)@ + seq![input_transition(slot, *view)],
{
    transitions.push(
        TextureTransition {
            slot,
            texture: view.texture.image_handle,
            state: TextureState::Resource,
        },
    );
    assert(transitions@ =~= old(transitions)@ + seq![input_transition(slot, *view)]);
}

/// Appends the transition of an optional input to the list, where the view is
/// supplied.
pub fn push_optional_input_transition(
    transitions: &mut Vec<TextureTransition>,
    slot: ResourceSlot,
    view: &Option<TextureView>,
)
    ensures
        final(transitions)@ == old(transitions)@ + optional_input_transitions(slot, *view),
{
    match view {
        Some(view) => {
            push_input_transition(transitions, slot, view);
        },
        None => {
            assert(transitions@ =~= old(transitions)@ + Seq::<TextureTransition>::empty());
        },
    }
}

/// Appends the transition of the output to the list.
pub fn push_output_transition(transitions: &mut Vec<TextureTransition>, view: &TextureView)
    ensures
        final(transitions)@ == old(transitions)@ + seq![output_transition(*view)],
{
    transitions.push(
        TextureTransition {
            slot: ResourceSlot::Output,
            texture: view.texture.image_handle,
            state: TextureState::StorageReadWrite,
        },
    );
    assert(transitions@ =~= old(transitions)@ + seq![output_transition(*view)]);
}

/// Camera exposure as an input of an evaluation.
#[derive(Clone, Copy, Debug, PartialEq, Eq)]
pub enum DlssExposure {
    /// Exposure controlled by the application.
    Manual {
        exposure: TextureView,
        exposure_scale: Option<Float32>,
        pre_exposure: Option<Float32>,
    },
    /// Exposure worked out by the runtime.
    Automatic,
}

impl DlssExposure {
    /// The exposure texture: the application's under manual exposure, none
    /// under automatic exposure.
    pub open spec fn texture(self) -> Option<TextureView> {
        match self {
            DlssExposure::Manual { exposure, .. } => Some(exposure),
            DlssExposure::Automatic => None,
        }
    }

    /// The exposure scale: under manual exposure the application's, or `1.0`
    /// where it names none; `0.0` under automatic exposure.
    pub open spec fn scale(self) -> Float32 {
        match self {
            DlssExposure::Manual { exposure_scale, .. } => match exposure_scale {
                Some(scale) => scale,
                None => Float32 { bits: ONE_BITS },
            },
            DlssExposure::Automatic => Float32 { bits: ZERO_BITS },
        }
    }

    /// The pre-exposure: under manual exposure the application's, or `0.0`
    /// where it names none; `0.0` under automatic exposure.
    pub open spec fn pre_exposure_value(self) -> Float32 {
        match self {
            DlssExposure::Manual { pre_exposure, .. } => match pre_exposure {
                Some(value) => value,
                None => Float32 { bits: ZERO_BITS },
            },
            DlssExposure::Automatic => Float32 { bits: ZERO_BITS },
        }
    }

    /// The exposure texture, if the application controls the exposure.
    pub fn exposure_texture(&self) -> (view: Option<TextureView>)
        ensures
            view == self.texture(),
    {
        match self {
            DlssExposure::Manual { exposure, .. } => Some(*exposure),
            DlssExposure::Automatic => None,
        }
    }

    /// The exposure scale to evaluate with.
    pub fn exposure_scale_or_default(&self) -> (scale: Float32)
        ensures
            scale == self.scale(),
    {
        match self {
            DlssExposure::Manual { exposure_scale, .. } => match exposure_scale {
                Some(scale) => *scale,
                None => Float32::one(),
            },
            DlssExposure::Automatic => Float32::zero(),
        }
    }

    /// The pre-exposure to evaluate with.
    pub fn pre_exposure_or_default(&self) -> (value: Float32)
        ensures
            value == self.pre_exposure_value(),
    {
        match self {
            DlssExposure::Manual { pre_exposure, .. } => match pre_exposure {
                Some(value) => *value,
                None => Float32::zero(),
            },
            DlssExposure::Automatic => Float32::zero(),
        }
    }
}

/// The size of the part of the inputs to evaluate: the size that the caller
/// names, or else the resolution that the context renders at.
pub open spec fn effective_subrect(partial: Option<Resolution>, render: Resolution) -> Resolution {
    match partial {
        Some(size) => size,
        None => render,
    }
}

/// The scale of the motion vectors: the scale that the caller names, or else
/// `1.0` on both axes.
pub open spec fn effective_motion_vector_scale(scale: Option<Float2>) -> Float2 {
    match scale {
        Some(scale) => scale,
        None => Float2::spec_one(),
    }
}

/// Input and output resources of one evaluation that upscales the color
/// image, with the camera state that goes with them.
#[derive(Clone, Copy, Debug, PartialEq, Eq)]
pub struct DlssRenderParameters {
    /// Main color view of the camera.
    pub color: TextureView,
    /// Depth buffer.
    pub depth: TextureView,
    /// Motion vectors.
    pub motion_vectors: TextureView,
    /// Camera exposure settings.
    pub exposure: DlssExposure,
    /// Optional per-pixel bias that makes the upscaling more reactive.
    pub bias: Option<TextureView>,
    /// The texture that the result is written to.
    pub dlss_output: TextureView,
    /// Whether the temporal history is to be reset, as at a camera cut.
    pub reset: bool,
    /// Subpixel jitter that was applied to the camera.
    pub jitter_offset: Float2,
    /// Use only a part of this size of the input textures, from their origin
    /// on, in place of the whole textures.
    pub partial_texture_size: Option<Resolution>,
    /// Scale to apply to the values of the motion vectors.
    pub motion_vector_scale: Option<Float2>,
}

impl DlssRenderParameters {
    /// The transitions that have to be recorded before the evaluation, in
    /// order: one for each input that is supplied, into the read-only state,
    /// and last the one of the output, into read-write storage. A view that is
    /// supplied in two places gets two entries.
    pub open spec fn barriers(self) -> Seq<TextureTransition> {
        seq![
            input_transition(ResourceSlot::Color, self.color),
            input_transition(ResourceSlot::Depth, self.depth),
            input_transition(ResourceSlot::MotionVectors, self.motion_vectors),
        ] + optional_input_transitions(ResourceSlot::Exposure, self.exposure.texture())
            + optional_input_transitions(ResourceSlot::Bias, self.bias) + seq![
            output_transition(self.dlss_output),
        ]
    }

    /// How many input views are supplied.
    pub open spec fn input_count(self) -> nat {
        3 + count_present(self.exposure.texture()) + count_present(self.bias)
    }

    /// Checks the parameters against each other. No combination of them is
    /// refused.
    pub fn validate(&self) -> (checked: Result<(), DlssError>)
        ensures
            checked is Ok,
    {
        Ok(())
    }

    /// Lists the transitions that have to be recorded before the evaluation.
    pub fn barrier_list(&self) -> (transitions: Vec<TextureTransition>)
        ensures
            transitions@ == self.barriers(),
    {
        let mut transitions: Vec<TextureTransition> = Vec::new();
        push_input_transition(&mut transitions, ResourceSlot::Color, &self.color);
        push_input_transition(&mut transitions, ResourceSlot::Depth, &self.depth);
        push_input_transition(&mut transitions, ResourceSlot::MotionVectors, &self.motion_vectors);
        assert(transitions@ =~= seq![
            input_transition(ResourceSlot::Color, self.color),
            input_transition(ResourceSlot::Depth, self.depth),
            input_transition(ResourceSlot::MotionVectors, self.motion_vectors),
        ]);
        let exposure = self.exposure.exposure_texture();
        push_optional_input_transition(&mut transitions, ResourceSlot::Exposure, &exposure);
        push_optional_input_transition(&mut transitions, ResourceSlot::Bias, &self.bias);
        push_output_transition(&mut transitions, &self.dlss_output);
        transitions
    }

    /// Among the transitions of an evaluation exactly one leads into
    /// read-write storage, and as many lead into the read-only state as input
    /// views are supplied.
    pub proof fn lemma_barrier_counts(self)
        ensures
            count_in_state(self.barriers(), TextureState::StorageReadWrite) == 1,
            count_in_state(self.barriers(), TextureState::Resource) == self.input_count(),
            self.barriers().len() == self.input_count() + 1,
            self.barriers().last() == output_transition(self.dlss_output),
    {
        let state = TextureState::Resource;
        let storage = TextureState::StorageReadWrite;
        let first = Seq::<TextureTransition>::empty();
        lemma_count_push_input(first, ResourceSlot::Color, self.color);
        let second = first + seq![input_transition(ResourceSlot::Color, self.color)];
        lemma_count_push_input(second, ResourceSlot::Depth, self.depth);
        let third = second + seq![input_transition(ResourceSlot::Depth, self.depth)];
        lemma_count_push_input(third, ResourceSlot::MotionVectors, self.motion_vectors);
        let required = third + seq![
            input_transition(ResourceSlot::MotionVectors, self.motion_vectors),
        ];
        assert(required =~= seq![
            input_transition(ResourceSlot::Color, self.color),
            input_transition(ResourceSlot::Depth, self.depth),
            input_transition(ResourceSlot::MotionVectors, self.motion_vectors),
        ]);
        lemma_count_push_optional_input(required, ResourceSlot::Exposure, self.exposure.texture());
        let exposed = required + optional_input_transitions(
            ResourceSlot::Exposure,
            self.exposure.texture(),
        );
        lemma_count_push_optional_input(exposed, ResourceSlot::Bias, self.bias);
        let inputs = exposed + optional_input_transitions(ResourceSlot::Bias, self.bias);
        lemma_count_push_output(inputs, self.dlss_output);
        assert(count_in_state(first, state) == 0 && count_in_state(first, storage) == 0);
    }
}

} // verus!
