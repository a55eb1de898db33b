use dlss_wgpu::render_parameters::{
    texture_to_ngx_resource, DlssExposure, DlssRenderParameters, ImageSubresourceRange,
    NativeResource, ResourceSlot, Texture, TextureState, TextureTransition, TextureView,
    IMAGE_ASPECT_COLOR, IMAGE_ASPECT_DEPTH, REMAINING_ARRAY_LAYERS, REMAINING_MIP_LEVELS,
};
use dlss_wgpu::scalar::{Float2, Float32, ONE_BITS, ZERO_BITS};
use dlss_wgpu::DlssError;

fn color_view(handle: u64) -> TextureView {
    TextureView {
        view_handle: handle + 1000,
        texture: Texture {
            image_handle: handle,
            has_color_aspect: wgpu::TextureFormat::Rgba16Float.has_color_aspect(),
            native_format: ash::vk::Format::R16G16B16A16_SFLOAT.as_raw(),
            width: 1280,
            height: 720,
            storage_binding: false,
        },
    }
}

fn parameters() -> DlssRenderParameters {
    DlssRenderParameters {
        color: color_view(1),
        depth: color_view(2),
        motion_vectors: color_view(3),
        exposure: DlssExposure::Automatic,
        bias: None,
        dlss_output: color_view(6),
        reset: false,
        jitter_offset: Float2 {
            x: Float32 { bits: 0.25f32.to_bits() },
            y: Float32 { bits: (-0.25f32).to_bits() },
        },
        partial_texture_size: None,
        motion_vector_scale: None,
    }
}

fn input(slot: ResourceSlot, texture: u64) -> TextureTransition {
    TextureTransition { slot, texture, state: TextureState::Resource }
}

fn output(texture: u64) -> TextureTransition {
    TextureTransition { slot: ResourceSlot::Output, texture, state: TextureState::StorageReadWrite }
}

#[test]
fn bit_patterns_are_those_of_zero_and_one() {
    assert_eq!(ZERO_BITS, 0.0f32.to_bits());
    assert_eq!(ONE_BITS, 1.0f32.to_bits());
    assert_eq!(f32::from_bits(Float32::one().bits), 1.0);
    assert_eq!(f32::from_bits(Float32::zero().bits), 0.0);
    assert_eq!(Float2::one(), Float2 { x: Float32::one(), y: Float32::one() });
}

#[test]
fn native_constants_are_those_of_the_graphics_api() {
    assert_eq!(IMAGE_ASPECT_COLOR, ash::vk::ImageAspectFlags::COLOR.as_raw());
    assert_eq!(IMAGE_ASPECT_DEPTH, ash::vk::ImageAspectFlags::DEPTH.as_raw());
    assert_eq!(REMAINING_MIP_LEVELS, ash::vk::REMAINING_MIP_LEVELS);
    assert_eq!(REMAINING_ARRAY_LAYERS, ash::vk::REMAINING_ARRAY_LAYERS);
}

#[test]
fn a_color_texture_is_described_with_the_color_aspect() {
    let view = TextureView {
        view_handle: 0xAAAA,
        texture: Texture {
            image_handle: 0xBBBB,
            has_color_aspect: wgpu::TextureFormat::Rgba8Unorm.has_color_aspect(),
            native_format: ash::vk::Format::R8G8B8A8_UNORM.as_raw(),
            width: 640,
            height: 360,
            storage_binding: wgpu::TextureUsages::STORAGE_BINDING
                .contains(wgpu::TextureUsages::STORAGE_BINDING),
        },
    };
    assert_eq!(
        texture_to_ngx_resource(&view),
        NativeResource {
            image_view: 0xAAAA,
            image: 0xBBBB,
            subresource_range: ImageSubresourceRange {
                aspect_mask: 1,
                base_mip_level: 0,
                level_count: u32::MAX,
                base_array_layer: 0,
                layer_count: u32::MAX,
            },
            format: 37,
            width: 640,
            height: 360,
            read_write: true,
        }
    );
}

#[test]
fn a_depth_texture_is_described_with_the_depth_aspect() {
    let view = TextureView {
        view_handle: 7,
        texture: Texture {
            image_handle: 8,
            has_color_aspect: wgpu::TextureFormat::Depth32Float.has_color_aspect(),
            native_format: ash::vk::Format::D32_SFLOAT.as_raw(),
            width: 1,
            height: 2,
            storage_binding: wgpu::TextureUsages::TEXTURE_BINDING
                .contains(wgpu::TextureUsages::STORAGE_BINDING),
        },
    };
    let resource = texture_to_ngx_resource(&view);
    assert_eq!(resource.subresource_range.aspect_mask, 2);
    assert_eq!(resource.format, 126);
    assert_eq!((resource.width, resource.height), (1, 2));
    assert!(!resource.read_write);
    assert_eq!((resource.image_view, resource.image), (7, 8));
}

#[test]
fn validation_refuses_nothing() {
    let checked: Result<(), DlssError> = parameters().validate();
    assert_eq!(checked, Ok(()));
}

#[test]
fn barriers_of_the_required_views_end_with_the_output() {
    assert_eq!(
        parameters().barrier_list(),
        vec![
            input(ResourceSlot::Color, 1),
            input(ResourceSlot::Depth, 2),
            input(ResourceSlot::MotionVectors, 3),
            output(6),
        ]
    );
}

#[test]
fn barriers_with_every_optional_view_hold_one_storage_transition() {
    let mut all = parameters();
    all.exposure = DlssExposure::Manual {
        exposure: color_view(4),
        exposure_scale: None,
        pre_exposure: None,
    };
    all.bias = Some(color_view(5));
    let barriers = all.barrier_list();
    assert_eq!(
        barriers,
        vec![
            input(ResourceSlot::Color, 1),
            input(ResourceSlot::Depth, 2),
            input(ResourceSlot::MotionVectors, 3),
            input(ResourceSlot::Exposure, 4),
            input(ResourceSlot::Bias, 5),
            output(6),
        ]
    );
    let storage =
        barriers.iter().filter(|barrier| barrier.state == TextureState::StorageReadWrite).count();
    let read_only =
        barriers.iter().filter(|barrier| barrier.state == TextureState::Resource).count();
    assert_eq!(storage, 1);
    assert_eq!(read_only, 5);
}

#[test]
fn a_view_supplied_twice_gets_two_barriers() {
    let mut twice = parameters();
    twice.depth = twice.color;
    twice.bias = Some(twice.color);
    assert_eq!(
        twice.barrier_list(),
        vec![
            input(ResourceSlot::Color, 1),
            input(ResourceSlot::Depth, 1),
            input(ResourceSlot::MotionVectors, 3),
            input(ResourceSlot::Bias, 1),
            output(6),
        ]
    );
}

#[test]
fn exposure_defaults_depend_on_who_controls_it() {
    let automatic = DlssExposure::Automatic;
    assert_eq!(automatic.exposure_texture(), None);
    assert_eq!(automatic.exposure_scale_or_default(), Float32 { bits: 0.0f32.to_bits() });
    assert_eq!(automatic.pre_exposure_or_default(), Float32 { bits: 0.0f32.to_bits() });

    let manual = DlssExposure::Manual {
        exposure: color_view(4),
        exposure_scale: None,
        pre_exposure: None,
    };
    assert_eq!(manual.exposure_texture(), Some(color_view(4)));
    assert_eq!(manual.exposure_scale_or_default(), Float32 { bits: 1.0f32.to_bits() });
    assert_eq!(manual.pre_exposure_or_default(), Float32 { bits: 0.0f32.to_bits() });

    let chosen = DlssExposure::Manual {
        exposure: color_view(4),
        exposure_scale: Some(Float32 { bits: 2.5f32.to_bits() }),
        pre_exposure: Some(Float32 { bits: 0.75f32.to_bits() }),
    };
    assert_eq!(chosen.exposure_scale_or_default(), Float32 { bits: 2.5f32.to_bits() });
    assert_eq!(chosen.pre_exposure_or_default(), Float32 { bits: 0.75f32.to_bits() });
}
