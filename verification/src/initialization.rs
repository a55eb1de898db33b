use crate::error::DlssError;
use vstd::prelude::*;

verus! {

/// `wgpu::hal::InstanceError`, the error of the graphics layer's call that
/// creates an instance. Nothing is claimed of it: a value of it is taken from
/// the host and handed back unread.
#[verifier::external_type_specification]
#[verifier::external_body]
pub struct ExInstanceError(wgpu::hal::InstanceError);

/// `wgpu::hal::DeviceError`, the error of the graphics layer's call that opens
/// a device. Nothing is claimed of it: a value of it is taken from the host
/// and handed back unread.
#[verifier::external_type_specification]
#[verifier::external_body]
pub struct ExDeviceError(wgpu::hal::DeviceError);

/// `wgpu::RequestDeviceError`, the error of the graphics layer's call that
/// makes a device out of an opened native one. Nothing is claimed of it: a
/// value of it is taken from the host and handed back unread.
#[verifier::external_type_specification]
#[verifier::external_body]
pub struct ExRequestDeviceError(wgpu::RequestDeviceError);

/// `ash::vk::Result`, a result code of the native graphics API. Nothing is
/// claimed of it: a value of it is taken from the host and handed back
/// unread.
#[verifier::external_type_specification]
#[verifier::external_body]
pub struct ExVulkanResult(ash::vk::Result);

/// The name of an extension of the graphics API: its bytes, without the zero
/// that ends it on the native side.
pub type ExtensionName = Vec<u8>;

/// What one feature needs at one scope: the extensions that the runtime
/// named, and whether all of them are available.
pub type Requirements = Result<(Vec<ExtensionName>, bool), InitializationError>;

/// A feature of the upscaling runtime.
#[derive(Clone, Copy, Debug, PartialEq, Eq, Structural)]
pub enum Feature {
    /// Upscaling of the color image.
    SuperResolution,
    /// Upscaling guided by denoising inputs.
    RayReconstruction,
}

/// Which features of the upscaling runtime the current system supports.
///
/// Produced while the graphics instance and device are created, and consulted
/// before any feature context is made.
#[derive(Clone, Copy, Debug, PartialEq, Eq, Structural)]
pub struct FeatureSupport {
    /// Upscaling of the color image is supported.
    pub super_resolution_supported: bool,
    /// Upscaling guided by denoising inputs is supported.
    pub ray_reconstruction_supported: bool,
}

impl Default for FeatureSupport {
    /// Every feature counts as supported until negotiation finds otherwise.
    fn default() -> (support: Self)
        ensures
            support.super_resolution_supported,
            support.ray_reconstruction_supported,
    {
        FeatureSupport { super_resolution_supported: true, ray_reconstruction_supported: true }
    }
}

impl FeatureSupport {
    /// Whether `feature` counts as supported.
    pub open spec fn supports(self, feature: Feature) -> bool {
        match feature {
            Feature::SuperResolution => self.super_resolution_supported,
            Feature::RayReconstruction => self.ray_reconstruction_supported,
        }
    }

    /// The same record with `feature` unsupported.
    pub open spec fn without(self, feature: Feature) -> FeatureSupport {
        match feature {
            Feature::SuperResolution => FeatureSupport {
                super_resolution_supported: false,
                ..self
            },
            Feature::RayReconstruction => FeatureSupport {
                ray_reconstruction_supported: false,
                ..self
            },
        }
    }

    /// Whether `feature` counts as supported.
    pub fn is_supported(&self, feature: Feature) -> (supported: bool)
        ensures
            supported == self.supports(feature),
    {
        match feature {
            Feature::SuperResolution => self.super_resolution_supported,
            Feature::RayReconstruction => self.ray_reconstruction_supported,
        }
    }

    /// Records that `feature` is not supported.
    pub fn mark_unsupported(&mut self, feature: Feature)
        ensures
            *final(self) == old(self).without(feature),
    {
        match feature {
            Feature::SuperResolution => {
                self.super_resolution_supported = false;
            },
            Feature::RayReconstruction => {
                self.ray_reconstruction_supported = false;
            },
        }
    }
}

/// Why the graphics instance or device could not be created.
#[derive(Debug)]
pub enum InitializationError {
    /// The graphics layer could not create the instance.
    InstanceError(wgpu::hal::InstanceError),
    /// The graphics layer could not make the device out of the native one.
    RequestDeviceError(wgpu::RequestDeviceError),
    /// The graphics layer could not open the native device.
    DeviceError(wgpu::hal::DeviceError),
    /// A call of the native graphics API failed.
    VulkanError(ash::vk::Result),
    /// A query of the upscaling runtime failed.
    DlssError(DlssError),
    /// The adapter does not use the native backend that the runtime works
    /// with.
    UnsupportedBackend,
}

impl From<wgpu::hal::InstanceError> for InitializationError {
    fn from(error: wgpu::hal::InstanceError) -> (converted: Self) {
        InitializationError::InstanceError(error)
    }
}

impl vstd::std_specs::convert::FromSpecImpl<wgpu::hal::InstanceError> for InitializationError {
    open spec fn obeys_from_spec() -> bool {
        true
    }

    open spec fn from_spec(error: wgpu::hal::InstanceError) -> Self {
        InitializationError::InstanceError(error)
    }
}

impl From<wgpu::RequestDeviceError> for InitializationError {
    fn from(error: wgpu::RequestDeviceError) -> (converted: Self) {
        InitializationError::RequestDeviceError(error)
    }
}

impl vstd::std_specs::convert::FromSpecImpl<wgpu::RequestDeviceError> for InitializationError {
    open spec fn obeys_from_spec() -> bool {
        true
    }

    open spec fn from_spec(error: wgpu::RequestDeviceError) -> Self {
        InitializationError::RequestDeviceError(error)
    }
}

impl From<wgpu::hal::DeviceError> for InitializationError {
    fn from(error: wgpu::hal::DeviceError) -> (converted: Self) {
        InitializationError::DeviceError(error)
    }
}

impl vstd::std_specs::convert::FromSpecImpl<wgpu::hal::DeviceError> for InitializationError {
    open spec fn obeys_from_spec() -> bool {
        true
    }

    open spec fn from_spec(error: wgpu::hal::DeviceError) -> Self {
        InitializationError::DeviceError(error)
    }
}

impl From<ash::vk::Result> for InitializationError {
    fn from(error: ash::vk::Result) -> (converted: Self) {
        InitializationError::VulkanError(error)
    }
}

impl vstd::std_specs::convert::FromSpecImpl<ash::vk::Result> for InitializationError {
    open spec fn obeys_from_spec() -> bool {
        true
    }

    open spec fn from_spec(error: ash::vk::Result) -> Self {
        InitializationError::VulkanError(error)
    }
}

impl From<DlssError> for InitializationError {
    fn from(error: DlssError) -> (converted: Self) {
        InitializationError::DlssError(error)
    }
}

impl vstd::std_specs::convert::FromSpecImpl<DlssError> for InitializationError {
    open spec fn obeys_from_spec() -> bool {
        true
    }

    open spec fn from_spec(error: DlssError) -> Self {
        InitializationError::DlssError(error)
    }
}

/// The names of a list of extensions, each as its bytes.
pub open spec fn names(extensions: Seq<ExtensionName>) -> Seq<Seq<u8>> {
    extensions.map_values(|name: ExtensionName| name@)
}

/// Every required name is among the available ones.
pub open spec fn all_listed(required: Seq<Seq<u8>>, available: Seq<Seq<u8>>) -> bool {
    forall|i: int| 0 <= i < required.len() ==> available.contains(#[trigger] required[i])
}

/// Whether two names are the same, byte for byte.
pub fn same_name(left: &ExtensionName, right: &ExtensionName) -> (same: bool)
    ensures
        same == (left@ == right@),
{
    if left.len() != right.len() {
        return false;
    }
    let mut at: usize = 0;
    while at < left.len()
        invariant
            left.len() == right.len(),
            at <= left.len(),
            forall|i: int| 0 <= i < at ==> left@[i] == right@[i],
        decreases left.len() - at,
    {
        if left[at] != right[at] {
            return false;
        }
        at += 1;
    }
    assert(left@ =~= right@);
    true
}

/// Whether `name` is among the available extensions.
pub fn extension_listed(name: &ExtensionName, available: &Vec<ExtensionName>) -> (listed: bool)
    ensures
        listed == names(available@).contains(name@),
{
    let mut at: usize = 0;
    while at < available.len()
        invariant
            at <= available.len(),
            forall|i: int| 0 <= i < at ==> names(available@)[i] != name@,
        decreases available.len() - at,
    {
        if same_name(name, &available[at]) {
            assert(names(available@)[at as int] == name@);
            return true;
        }
        at += 1;
    }
    false
}

/// Whether every required extension is among the available ones.
pub fn extensions_supported(required: &Vec<ExtensionName>, available: &Vec<ExtensionName>) -> (supported:
    bool)
    ensures
        supported == all_listed(names(required@), names(available@)),
{
    let mut at: usize = 0;
    while at < required.len()
        invariant
            at <= required.len(),
            forall|i: int|
                0 <= i < at ==> names(available@).contains(#[trigger] names(required@)[i]),
        decreases required.len() - at,
    {
        if !extension_listed(&required[at], available) {
            assert(names(required@)[at as int] == required@[at as int]@);
            return false;
        }
        at += 1;
    }
    true
}

/// What a feature needs at the scope of the instance, from the runtime's
/// answer and the extensions that the loader of the graphics API lists: the
/// extensions that the runtime named, and whether the loader lists them all.
/// A failure of the runtime comes first, then a failure of the loader.
pub open spec fn instance_requirements(
    required: Result<Vec<ExtensionName>, DlssError>,
    enumerated: Result<Vec<ExtensionName>, ash::vk::Result>,
) -> Result<(Seq<Seq<u8>>, bool), InitializationError> {
    match required {
        Err(error) => Err(InitializationError::DlssError(error)),
        Ok(required) => match enumerated {
            Err(code) => Err(InitializationError::VulkanError(code)),
            Ok(enumerated) => Ok(
                (names(required@), all_listed(names(required@), names(enumerated@))),
            ),
        },
    }
}

/// What a feature needs at the scope of the device, from the runtime's
/// answer and the extensions that the physical device reports: the
/// extensions that the runtime named, and whether the device has them all.
pub open spec fn device_requirements(
    required: Result<Vec<ExtensionName>, DlssError>,
    supported: Seq<ExtensionName>,
) -> Result<(Seq<Seq<u8>>, bool), InitializationError> {
    match required {
        Err(error) => Err(InitializationError::DlssError(error)),
        Ok(required) => Ok((names(required@), all_listed(names(required@), names(supported)))),
    }
}

/// The requirements as names and a verdict, or the error.
pub open spec fn requirements_view(requirements: Requirements) -> Result<
    (Seq<Seq<u8>>, bool),
    InitializationError,
> {
    match requirements {
        Ok((required, satisfied)) => Ok((names(required@), satisfied)),
        Err(error) => Err(error),
    }
}

/// Works out what a feature needs at the scope of the instance. That an
/// extension is missing is no error: it makes the verdict `false`.
pub fn required_instance_extensions(
    required: Result<Vec<ExtensionName>, DlssError>,
    enumerated: Result<Vec<ExtensionName>, ash::vk::Result>,
) -> (requirements: Requirements)
    ensures
        requirements_view(requirements) == instance_requirements(required, enumerated),
{
    let required = match required {
        Ok(required) => required,
        Err(error) => {
            return Err(InitializationError::DlssError(error));
        },
    };
    let enumerated = match enumerated {
        Ok(enumerated) => enumerated,
        Err(code) => {
            return Err(InitializationError::VulkanError(code));
        },
    };
    let extensions_supported = extensions_supported(&required, &enumerated);
    Ok((required, extensions_supported))
}

/// Works out what a feature needs at the scope of the device. That an
/// extension is missing is no error: it makes the verdict `false`.
pub fn required_device_extensions(
    required: Result<Vec<ExtensionName>, DlssError>,
    supported: &Vec<ExtensionName>,
) -> (requirements: Requirements)
    ensures
        requirements_view(requirements) == device_requirements(required, supported@),
{
    let required = match required {
        Ok(required) => required,
        Err(error) => {
            return Err(InitializationError::DlssError(error));
        },
    };
    let extensions_supported = extensions_supported(&required, supported);
    Ok((required, extensions_supported))
}

/// The extensions of the creation request after one feature's requirements
/// were taken in: with the feature's extensions at the end where all of them
/// are available, and unchanged otherwise.
pub open spec fn negotiated_extensions(
    extensions: Seq<Seq<u8>>,
    requirements: Requirements,
) -> Seq<Seq<u8>> {
    match requirements {
        Ok((required, true)) => extensions + names(required@),
        _ => extensions,
    }
}

/// The support record after one feature's requirements were taken in: with
/// the feature unsupported where an extension is missing, and unchanged
/// otherwise.
pub open spec fn negotiated_support(
    feature_support: FeatureSupport,
    feature: Feature,
    requirements: Requirements,
) -> FeatureSupport {
    match requirements {
        Ok((_, false)) => feature_support.without(feature),
        _ => feature_support,
    }
}

/// The verdict on the creation after one feature's requirements were taken
/// in: the feature's error where its query failed, and unchanged otherwise.
pub open spec fn negotiated_verdict(
    verdict: Result<(), InitializationError>,
    requirements: Requirements,
) -> Result<(), InitializationError> {
    match requirements {
        Err(error) => Err(error),
        _ => verdict,
    }
}

/// Takes the requirements of one feature into a creation request.
///
/// Where the feature's extensions are all available they are added to the
/// request. Where one is missing the feature is marked unsupported, and the
/// creation goes on without it. Where the query failed its error becomes the
/// verdict on the creation, in place of any earlier one.
pub fn negotiate_feature(
    feature: Feature,
    requirements: Requirements,
    extensions: &mut Vec<ExtensionName>,
    feature_support: &mut FeatureSupport,
    verdict: &mut Result<(), InitializationError>,
)
    ensures
        names(final(extensions)@) == negotiated_extensions(names(old(extensions)@), requirements),
        *final(feature_support) == negotiated_support(*old(feature_support), feature, requirements),
        *final(verdict) == negotiated_verdict(*old(verdict), requirements),
{
    match requirements {
        Ok((mut required, true)) => {
            let ghost added = required@;
            extensions.append(&mut required);
            assert(names(extensions@) =~= names(old(extensions)@) + names(added));
        },
        Ok((_, false)) => {
            feature_support.mark_unsupported(feature);
        },
        Err(error) => {
            *verdict = Err(error);
        },
    }
}

/// Negotiates the extensions of one creation call: the requirements of
/// upscaling the color image are taken in first, those of upscaling guided by
/// denoising inputs second. The verdict is the error of the last query that
/// failed, if any did.
pub fn negotiate_extensions(
    extensions: &mut Vec<ExtensionName>,
    super_resolution: Requirements,
    ray_reconstruction: Requirements,
    feature_support: &mut FeatureSupport,
) -> (verdict: Result<(), InitializationError>)
    ensures
        names(final(extensions)@) == negotiated_extensions(
            negotiated_extensions(names(old(extensions)@), super_resolution),
            ray_reconstruction,
        ),
        *final(feature_support) == negotiated_support(
            negotiated_support(*old(feature_support), Feature::SuperResolution, super_resolution),
            Feature::RayReconstruction,
            ray_reconstruction,
        ),
        verdict == negotiated_verdict(
            negotiated_verdict(Ok(()), super_resolution),
            ray_reconstruction,
        ),
{
    let mut verdict: Result<(), InitializationError> = Ok(());
    negotiate_feature(
        Feature::SuperResolution,
        super_resolution,
        extensions,
        feature_support,
        &mut verdict,
    );
    negotiate_feature(
        Feature::RayReconstruction,
        ray_reconstruction,
        extensions,
        feature_support,
        &mut verdict,
    );
    verdict
}

/// How the creation of an instance ends: with the graphics layer's error
/// where it could not open the instance, else with the verdict of the
/// negotiation where that is an error, and else with the opened instance.
pub open spec fn instance_outcome<I>(
    opened: Result<I, wgpu::hal::InstanceError>,
    negotiated: Result<(), InitializationError>,
) -> Result<I, InitializationError> {
    match opened {
        Err(error) => Err(InitializationError::InstanceError(error)),
        Ok(instance) => match negotiated {
            Err(error) => Err(error),
            Ok(_) => Ok(instance),
        },
    }
}

/// How the opening of a device ends: with an error where the adapter does not
/// use the expected native backend, so that no device could be opened at all,
/// else with the graphics layer's error where it could not open the device,
/// else with the verdict of the negotiation where that is an error, and else
/// with the opened device.
pub open spec fn device_outcome<D>(
    opened: Option<Result<D, wgpu::hal::DeviceError>>,
    negotiated: Result<(), InitializationError>,
) -> Result<D, InitializationError> {
    match opened {
        None => Err(InitializationError::UnsupportedBackend),
        Some(Err(error)) => Err(InitializationError::DeviceError(error)),
        Some(Ok(device)) => match negotiated {
            Err(error) => Err(error),
            Ok(_) => Ok(device),
        },
    }
}

/// Decides how the creation of an instance ends, from what the graphics
/// layer's call returned and the verdict of the negotiation that took place
/// within it. An instance that was opened is handed on only if the
/// negotiation went through; otherwise it is dropped here.
pub fn create_instance<I>(
    opened: Result<I, wgpu::hal::InstanceError>,
    negotiated: Result<(), InitializationError>,
) -> (instance: Result<I, InitializationError>)
    ensures
        instance == instance_outcome(opened, negotiated),
{
    let instance = match opened {
        Ok(instance) => instance,
        Err(error) => {
            return Err(InitializationError::from(error));
        },
    };
    match negotiated {
        Ok(_) => Ok(instance),
        Err(error) => Err(error),
    }
}

/// Decides how the opening of a device ends, from what the graphics layer's
/// call returned, if the adapter's backend allowed to make it at all, and the
/// verdict of the negotiation that took place within it. A device that was
/// opened is handed on only if the negotiation went through; otherwise it is
/// dropped here.
pub fn request_device<D>(
    opened: Option<Result<D, wgpu::hal::DeviceError>>,
    negotiated: Result<(), InitializationError>,
) -> (device: Result<D, InitializationError>)
    ensures
        device == device_outcome(opened, negotiated),
{
    let opened = match opened {
        Some(opened) => opened,
        None => {
            return Err(InitializationError::UnsupportedBackend);
        },
    };
    let device = match opened {
        Ok(device) => device,
        Err(error) => {
            return Err(InitializationError::from(error));
        },
    };
    match negotiated {
        Ok(_) => Ok(device),
        Err(error) => Err(error),
    }
}

/// A feature that lacks an extension does not stand in the way of the
/// creation: where no query failed and the graphics layer opens the instance
/// or the device, the creation succeeds with what was opened, whichever
/// features are supported.
pub proof fn lemma_unsupported_feature_keeps_creation<T>(
    super_resolution: Requirements,
    ray_reconstruction: Requirements,
    opened: T,
)
    requires
        super_resolution is Ok,
        ray_reconstruction is Ok,
    ensures
        ({
            let negotiated = negotiated_verdict(
                negotiated_verdict(Ok(()), super_resolution),
                ray_reconstruction,
            );
            &&& instance_outcome(Ok(opened), negotiated) == Ok::<T, InitializationError>(opened)
            &&& device_outcome(Some(Ok(opened)), negotiated) == Ok::<T, InitializationError>(
                opened,
            )
        }),
{
}

/// A query that fails for any feature fails the creation: nothing that was
/// opened is handed on, and where the graphics layer itself raised no error
/// the error is that of the last query that failed.
pub proof fn lemma_query_failure_fails_creation<T>(
    super_resolution: Requirements,
    ray_reconstruction: Requirements,
    opened_instance: Result<T, wgpu::hal::InstanceError>,
    opened_device: Option<Result<T, wgpu::hal::DeviceError>>,
)
    requires
        super_resolution is Err || ray_reconstruction is Err,
    ensures
        ({
            let negotiated = negotiated_verdict(
                negotiated_verdict(Ok(()), super_resolution),
                ray_reconstruction,
            );
            let expected = if ray_reconstruction is Err {
                ray_reconstruction->Err_0
            } else {
                super_resolution->Err_0
            };
            &&& instance_outcome(opened_instance, negotiated) is Err
            &&& device_outcome(opened_device, negotiated) is Err
            &&& opened_instance is Ok ==> instance_outcome(opened_instance, negotiated)->Err_0
                == expected
            &&& opened_device matches Some(Ok(_)) ==> device_outcome(
                opened_device,
                negotiated,
            )->Err_0 == expected
        }),
{
}

} // verus!
