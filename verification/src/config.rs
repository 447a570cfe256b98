//! The fixed configuration of the bootstrap: which validation layers are
//! requested, which device extensions are required, and the window size the
//! swapchain falls back to, together with the checks that hold the driver's
//! reports against that configuration.

use crate::names::{all_names_present, all_names_supported};
use vstd::prelude::*;

verus! {

/// Size of the window the program opens; the swapchain extent falls back to
/// it when the surface leaves the extent open.
pub const WINDOW_WIDTH: u32 = 800;

pub const WINDOW_HEIGHT: u32 = 600;

/// Whether validation layers are requested, and which layer names they need.
pub struct ValidationInfo {
    pub enable_validation: bool,
    pub required_validation_layers: [&'static str; 1],
}

/// The device extensions a physical device must offer.
pub struct DeviceExtension {
    pub name: [&'static str; 1],
}

/// The validation configuration the bootstrap runs with: validation on, and
/// the one standard validation layer required.
pub fn validation_info() -> (v: ValidationInfo)
    ensures
        v.enable_validation == true,
        v.required_validation_layers@.len() == 1,
        v.required_validation_layers@[0]@ == "VK_LAYER_KHRONOS_validation"@,
{
    ValidationInfo {
        enable_validation: true,
        required_validation_layers: ["VK_LAYER_KHRONOS_validation"],
    }
}

/// The device extensions the bootstrap requires: the swapchain extension
/// alone.
pub fn device_extension() -> (d: DeviceExtension)
    ensures
        d.name@.len() == 1,
        d.name@[0]@ == "VK_KHR_swapchain"@,
{
    DeviceExtension { name: ["VK_KHR_swapchain"] }
}

/// The layer names to enable on the instance and device: the required
/// validation layers when validation is on, none otherwise.
pub fn get_require_layer_raw_names(info: &ValidationInfo) -> (r: Vec<&'static str>)
    ensures
        info.enable_validation ==> r@ == info.required_validation_layers@,
        !info.enable_validation ==> r@.len() == 0,
{
    let mut out: Vec<&'static str> = Vec::new();
    if info.enable_validation {
        out.push(info.required_validation_layers[0]);
        proof {
            assert(out@ =~= info.required_validation_layers@);
        }
    }
    out
}

/// Whether every requested layer is among the layer names the driver
/// reports, each report a NUL-terminated byte array.
pub fn check_validation_layer_support(
    layers: &[&'static str],
    available_layers_raw: &Vec<Vec<u8>>,
) -> (r: bool)
    ensures
        r == all_names_supported(layers@, available_layers_raw@),
{
    all_names_present(layers, available_layers_raw)
}

/// Whether every required device extension is among the extension names the
/// driver reports for a physical device.
pub fn check_physic_device_extension_support(
    required: &DeviceExtension,
    available_extensions_raw: &Vec<Vec<u8>>,
) -> (r: bool)
    ensures
        r == all_names_supported(required.name@, available_extensions_raw@),
{
    all_names_present(required.name.as_slice(), available_extensions_raw)
}

} // verus!
