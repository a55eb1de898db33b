//! Integration of a vendor-supplied neural upscaling runtime with a GPU
//! application: extension negotiation before the graphics instance and device
//! exist, the lifecycle of per-camera feature contexts, and the assembly of
//! the parameter block and resource transitions of each per-frame evaluation.
//!
//! Everything here works on plain values. The host performs the graphics and
//! runtime calls and hands their results in; the decisions are made, and
//! proved, here.

pub mod error;
pub mod initialization;
pub mod jitter;
/// Upscaling guided by denoising inputs.
pub mod ray_reconstruction;
pub mod render_parameters;
pub mod resolution;
pub mod scalar;
pub mod settings;
/// Upscaling of the color image.
pub mod super_resolution;
pub mod teardown;

pub use error::DlssError;
pub use initialization::{create_instance, request_device, FeatureSupport, InitializationError};
pub use resolution::Resolution;
pub use settings::{DlssFeatureFlags, DlssPerfQualityMode};
