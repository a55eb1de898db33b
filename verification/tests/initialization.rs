use dlss_wgpu::initialization::{
    extension_listed, extensions_supported, negotiate_extensions, negotiate_feature,
    required_device_extensions, required_instance_extensions, same_name, ExtensionName, Feature,
    Requirements,
};
use dlss_wgpu::{create_instance, request_device, DlssError, FeatureSupport, InitializationError};

fn name(text: &str) -> ExtensionName {
    text.as_bytes().to_vec()
}

fn names(texts: &[&str]) -> Vec<ExtensionName> {
    texts.iter().map(|text| name(text)).collect()
}

/// Stands for the upscaling runtime: what it answers when asked which
/// extensions a feature needs.
struct MockRuntime {
    super_resolution: Result<Vec<&'static str>, u32>,
    ray_reconstruction: Result<Vec<&'static str>, u32>,
}

impl MockRuntime {
    fn query(&self, feature: Feature) -> Result<Vec<ExtensionName>, DlssError> {
        let answer = match feature {
            Feature::SuperResolution => &self.super_resolution,
            Feature::RayReconstruction => &self.ray_reconstruction,
        };
        match answer {
            Ok(required) => Ok(names(required)),
            Err(status) => Err(DlssError { status: *status }),
        }
    }
}

/// Stands for the instance that the graphics layer opens: it remembers the
/// extensions it was opened with.
#[derive(Debug, PartialEq)]
struct MockInstance {
    extensions: Vec<ExtensionName>,
}

fn mock_create_instance(
    runtime: &MockRuntime,
    enumerated: &[&str],
    feature_support: &mut FeatureSupport,
) -> Result<MockInstance, InitializationError> {
    let mut extensions = names(&["VK_KHR_surface"]);
    let super_resolution =
        required_instance_extensions(runtime.query(Feature::SuperResolution), Ok(names(enumerated)));
    let ray_reconstruction = required_instance_extensions(
        runtime.query(Feature::RayReconstruction),
        Ok(names(enumerated)),
    );
    let verdict =
        negotiate_extensions(&mut extensions, super_resolution, ray_reconstruction, feature_support);
    create_instance(Ok(MockInstance { extensions }), verdict)
}

fn mock_request_device(
    runtime: &MockRuntime,
    supported: &[&str],
    feature_support: &mut FeatureSupport,
) -> Result<MockInstance, InitializationError> {
    let supported = names(supported);
    let mut extensions = names(&["VK_KHR_swapchain"]);
    let super_resolution =
        required_device_extensions(runtime.query(Feature::SuperResolution), &supported);
    let ray_reconstruction =
        required_device_extensions(runtime.query(Feature::RayReconstruction), &supported);
    let verdict =
        negotiate_extensions(&mut extensions, super_resolution, ray_reconstruction, feature_support);
    request_device(Some(Ok(MockInstance { extensions })), verdict)
}

#[test]
fn feature_support_defaults_to_everything_supported() {
    let support = FeatureSupport::default();
    assert!(support.super_resolution_supported);
    assert!(support.ray_reconstruction_supported);
    assert!(support.is_supported(Feature::SuperResolution));
    assert!(support.is_supported(Feature::RayReconstruction));
}

#[test]
fn mark_unsupported_flips_only_the_named_feature() {
    let mut support = FeatureSupport::default();
    support.mark_unsupported(Feature::RayReconstruction);
    assert!(support.super_resolution_supported);
    assert!(!support.ray_reconstruction_supported);
    support.mark_unsupported(Feature::SuperResolution);
    assert!(!support.super_resolution_supported);
    assert!(!support.ray_reconstruction_supported);
}

#[test]
fn same_name_compares_byte_for_byte() {
    assert!(same_name(&name("VK_NVX_binary_import"), &name("VK_NVX_binary_import")));
    assert!(!same_name(&name("VK_NVX_binary_import"), &name("VK_NVX_binary_impor")));
    assert!(!same_name(&name("VK_NVX_binary_import"), &name("VK_NVX_binary_imporT")));
    assert!(same_name(&name(""), &name("")));
}

#[test]
fn extension_listed_finds_a_name_anywhere_in_the_list() {
    let available = names(&["a", "b", "c"]);
    assert!(extension_listed(&name("a"), &available));
    assert!(extension_listed(&name("c"), &available));
    assert!(!extension_listed(&name("d"), &available));
    assert!(!extension_listed(&name("a"), &Vec::new()));
}

#[test]
fn extensions_supported_needs_every_required_name() {
    let available = names(&["a", "b", "c"]);
    assert!(extensions_supported(&names(&["c", "a"]), &available));
    assert!(extensions_supported(&Vec::new(), &available));
    assert!(extensions_supported(&Vec::new(), &Vec::new()));
    assert!(!extensions_supported(&names(&["a", "d"]), &available));
    assert!(!extensions_supported(&names(&["a"]), &Vec::new()));
}

#[test]
fn instance_requirements_report_the_names_and_the_verdict() {
    let satisfied =
        required_instance_extensions(Ok(names(&["x", "y"])), Ok(names(&["y", "z", "x"])));
    assert!(matches!(satisfied, Ok((ref required, true)) if *required == names(&["x", "y"])));
    let missing = required_instance_extensions(Ok(names(&["x", "y"])), Ok(names(&["x"])));
    assert!(matches!(missing, Ok((ref required, false)) if *required == names(&["x", "y"])));
}

#[test]
fn instance_requirements_hand_on_the_runtime_error_first() {
    let failed = required_instance_extensions(
        Err(DlssError { status: 0xBAD0_0001 }),
        Err(ash::vk::Result::ERROR_OUT_OF_HOST_MEMORY),
    );
    assert!(matches!(
        failed,
        Err(InitializationError::DlssError(DlssError { status: 0xBAD0_0001 }))
    ));
}

#[test]
fn instance_requirements_hand_on_the_loader_error() {
    let failed = required_instance_extensions(
        Ok(names(&["x"])),
        Err(ash::vk::Result::ERROR_OUT_OF_HOST_MEMORY),
    );
    assert!(matches!(
        failed,
        Err(InitializationError::VulkanError(ash::vk::Result::ERROR_OUT_OF_HOST_MEMORY))
    ));
}

#[test]
fn device_requirements_report_the_names_and_the_verdict() {
    let supported = names(&["p", "q"]);
    let satisfied = required_device_extensions(Ok(names(&["q"])), &supported);
    assert!(matches!(satisfied, Ok((ref required, true)) if *required == names(&["q"])));
    let missing = required_device_extensions(Ok(names(&["q", "r"])), &supported);
    assert!(matches!(missing, Ok((ref required, false)) if *required == names(&["q", "r"])));
    let failed = required_device_extensions(Err(DlssError { status: 7 }), &supported);
    assert!(matches!(failed, Err(InitializationError::DlssError(DlssError { status: 7 }))));
}

#[test]
fn negotiate_feature_appends_the_extensions_of_a_satisfied_feature() {
    let mut extensions = names(&["base"]);
    let mut support = FeatureSupport::default();
    let mut verdict: Result<(), InitializationError> = Ok(());
    negotiate_feature(
        Feature::SuperResolution,
        Ok((names(&["one", "two"]), true)),
        &mut extensions,
        &mut support,
        &mut verdict,
    );
    assert_eq!(extensions, names(&["base", "one", "two"]));
    assert_eq!(support, FeatureSupport::default());
    assert!(verdict.is_ok());
}

#[test]
fn negotiate_feature_marks_an_unsatisfied_feature_and_adds_nothing() {
    let mut extensions = names(&["base"]);
    let mut support = FeatureSupport::default();
    let mut verdict: Result<(), InitializationError> = Ok(());
    negotiate_feature(
        Feature::RayReconstruction,
        Ok((names(&["one", "two"]), false)),
        &mut extensions,
        &mut support,
        &mut verdict,
    );
    assert_eq!(extensions, names(&["base"]));
    assert!(support.super_resolution_supported);
    assert!(!support.ray_reconstruction_supported);
    assert!(verdict.is_ok());
}

#[test]
fn negotiate_feature_records_a_failed_query_and_touches_nothing_else() {
    let mut extensions = names(&["base"]);
    let mut support = FeatureSupport::default();
    let mut verdict: Result<(), InitializationError> = Ok(());
    negotiate_feature(
        Feature::SuperResolution,
        Err(InitializationError::DlssError(DlssError { status: 3 })),
        &mut extensions,
        &mut support,
        &mut verdict,
    );
    assert_eq!(extensions, names(&["base"]));
    assert_eq!(support, FeatureSupport::default());
    assert!(matches!(verdict, Err(InitializationError::DlssError(DlssError { status: 3 }))));
}

#[test]
fn negotiation_keeps_the_error_of_the_last_failed_query() {
    let mut extensions = Vec::new();
    let mut support = FeatureSupport::default();
    let first: Requirements = Err(InitializationError::DlssError(DlssError { status: 1 }));
    let second: Requirements =
        Err(InitializationError::VulkanError(ash::vk::Result::ERROR_DEVICE_LOST));
    let verdict = negotiate_extensions(&mut extensions, first, second, &mut support);
    assert!(matches!(
        verdict,
        Err(InitializationError::VulkanError(ash::vk::Result::ERROR_DEVICE_LOST))
    ));

    let first: Requirements = Err(InitializationError::DlssError(DlssError { status: 1 }));
    let second: Requirements = Ok((names(&["e"]), true));
    let verdict = negotiate_extensions(&mut extensions, first, second, &mut support);
    assert!(matches!(verdict, Err(InitializationError::DlssError(DlssError { status: 1 }))));
    assert_eq!(extensions, names(&["e"]));
}

#[test]
fn instance_creation_goes_on_without_an_unsupported_feature() {
    let runtime = MockRuntime {
        super_resolution: Ok(vec!["VK_EXT_a"]),
        ray_reconstruction: Ok(vec!["VK_EXT_a", "VK_EXT_absent"]),
    };
    let mut support = FeatureSupport::default();
    let instance = mock_create_instance(&runtime, &["VK_EXT_a", "VK_EXT_b"], &mut support);
    assert!(support.super_resolution_supported);
    assert!(!support.ray_reconstruction_supported);
    let instance = instance.expect("the creation succeeds without the unsupported feature");
    assert_eq!(instance.extensions, names(&["VK_KHR_surface", "VK_EXT_a"]));
}

#[test]
fn device_creation_goes_on_without_an_unsupported_feature() {
    let runtime = MockRuntime {
        super_resolution: Ok(vec!["VK_EXT_absent"]),
        ray_reconstruction: Ok(vec!["VK_EXT_b"]),
    };
    let mut support = FeatureSupport::default();
    let device = mock_request_device(&runtime, &["VK_EXT_a", "VK_EXT_b"], &mut support);
    assert!(!support.super_resolution_supported);
    assert!(support.ray_reconstruction_supported);
    let device = device.expect("the creation succeeds without the unsupported feature");
    assert_eq!(device.extensions, names(&["VK_KHR_swapchain", "VK_EXT_b"]));
}

#[test]
fn both_features_supported_adds_both_sets_of_extensions_in_order() {
    let runtime = MockRuntime {
        super_resolution: Ok(vec!["VK_EXT_a"]),
        ray_reconstruction: Ok(vec!["VK_EXT_b", "VK_EXT_a"]),
    };
    let mut support = FeatureSupport::default();
    let instance = mock_create_instance(&runtime, &["VK_EXT_a", "VK_EXT_b"], &mut support)
        .expect("both features are supported");
    assert_eq!(support, FeatureSupport::default());
    assert_eq!(
        instance.extensions,
        names(&["VK_KHR_surface", "VK_EXT_a", "VK_EXT_b", "VK_EXT_a"])
    );
}

#[test]
fn a_failed_query_fails_the_creation_of_the_instance() {
    let runtime = MockRuntime {
        super_resolution: Err(0xBAD0_0000),
        ray_reconstruction: Ok(vec!["VK_EXT_a"]),
    };
    let mut support = FeatureSupport::default();
    let instance = mock_create_instance(&runtime, &["VK_EXT_a"], &mut support);
    assert!(matches!(
        instance,
        Err(InitializationError::DlssError(DlssError { status: 0xBAD0_0000 }))
    ));
    assert_eq!(support, FeatureSupport::default());
}

#[test]
fn a_failed_query_fails_the_creation_of_the_device() {
    let runtime = MockRuntime {
        super_resolution: Ok(vec!["VK_EXT_a"]),
        ray_reconstruction: Err(0xBAD0_0002),
    };
    let mut support = FeatureSupport::default();
    let device = mock_request_device(&runtime, &["VK_EXT_a"], &mut support);
    assert!(matches!(
        device,
        Err(InitializationError::DlssError(DlssError { status: 0xBAD0_0002 }))
    ));
}

#[test]
fn a_failed_loader_fails_the_creation_of_the_instance() {
    let mut extensions = Vec::new();
    let mut support = FeatureSupport::default();
    let super_resolution = required_instance_extensions(
        Ok(names(&["VK_EXT_a"])),
        Err(ash::vk::Result::ERROR_INITIALIZATION_FAILED),
    );
    let ray_reconstruction =
        required_instance_extensions(Ok(names(&["VK_EXT_a"])), Ok(names(&["VK_EXT_a"])));
    let verdict =
        negotiate_extensions(&mut extensions, super_resolution, ray_reconstruction, &mut support);
    let instance = create_instance(Ok(5u8), verdict);
    assert!(matches!(
        instance,
        Err(InitializationError::VulkanError(ash::vk::Result::ERROR_INITIALIZATION_FAILED))
    ));
}

#[test]
fn an_adapter_on_another_backend_is_refused() {
    let device = request_device::<u8>(None, Ok(()));
    assert!(matches!(device, Err(InitializationError::UnsupportedBackend)));
    let device = request_device::<u8>(
        None,
        Err(InitializationError::DlssError(DlssError { status: 1 })),
    );
    assert!(matches!(device, Err(InitializationError::UnsupportedBackend)));
}

#[test]
fn a_device_that_cannot_be_opened_fails_with_the_device_error() {
    let device = request_device::<u8>(Some(Err(wgpu::hal::DeviceError::Lost)), Ok(()));
    assert!(matches!(
        device,
        Err(InitializationError::DeviceError(wgpu::hal::DeviceError::Lost))
    ));
    let device = request_device::<u8>(
        Some(Err(wgpu::hal::DeviceError::OutOfMemory)),
        Err(InitializationError::DlssError(DlssError { status: 1 })),
    );
    assert!(matches!(
        device,
        Err(InitializationError::DeviceError(wgpu::hal::DeviceError::OutOfMemory))
    ));
}

#[test]
fn an_opened_device_is_handed_on_when_the_negotiation_went_through() {
    assert!(matches!(request_device(Some(Ok(42u8)), Ok(())), Ok(42u8)));
    assert!(matches!(create_instance(Ok(43u8), Ok(())), Ok(43u8)));
}

#[test]
fn errors_convert_into_the_variant_of_their_kind() {
    assert!(matches!(
        InitializationError::from(wgpu::hal::DeviceError::Unexpected),
        InitializationError::DeviceError(wgpu::hal::DeviceError::Unexpected)
    ));
    assert!(matches!(
        InitializationError::from(ash::vk::Result::ERROR_EXTENSION_NOT_PRESENT),
        InitializationError::VulkanError(ash::vk::Result::ERROR_EXTENSION_NOT_PRESENT)
    ));
    assert!(matches!(
        InitializationError::from(DlssError { status: 9 }),
        InitializationError::DlssError(DlssError { status: 9 })
    ));
}
