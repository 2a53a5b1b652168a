//! The local device's identity: its name, its mode and its hardware id.
use vstd::prelude::*;
use vstd::string::*;

use crate::models::{DeviceConfig, DeviceMode};

verus! {

/// A greeting for `name`.
pub fn greet(name: &str) -> (r: String)
    ensures
        r@ == "Hello, "@ + name@ + "! You've been greeted from Rust!"@,
{
    String::from_str("Hello, ").concat(name).concat("! You've been greeted from Rust!")
}

/// Switches the local device to `mode`; nothing else changes.
pub fn set_device_mode(config: &mut DeviceConfig, mode: DeviceMode)
    ensures
        final(config).device.mode == mode,
        final(config).device.device_id == old(config).device.device_id,
        final(config).device.device_name == old(config).device.device_name,
        final(config).device.imei == old(config).device.imei,
        final(config).device.created_at == old(config).device.created_at,
        final(config).supervision_requests == old(config).supervision_requests,
        final(config).supervision_relationships == old(config).supervision_relationships,
{
    config.device.mode = mode;
}

/// Renames the local device; requests and relationships keep the names
/// they were made with.
pub fn update_device_name(config: &mut DeviceConfig, name: String)
    ensures
        final(config).device.device_name == name,
        final(config).device.device_id == old(config).device.device_id,
        final(config).device.mode == old(config).device.mode,
        final(config).device.imei == old(config).device.imei,
        final(config).device.created_at == old(config).device.created_at,
        final(config).supervision_requests == old(config).supervision_requests,
        final(config).supervision_relationships == old(config).supervision_relationships,
{
    config.device.device_name = name;
}

/// Records the local device's hardware id.
pub fn set_device_imei(config: &mut DeviceConfig, imei: String)
    ensures
        final(config).device.imei == Some(imei),
        final(config).device.device_id == old(config).device.device_id,
        final(config).device.device_name == old(config).device.device_name,
        final(config).device.mode == old(config).device.mode,
        final(config).device.created_at == old(config).device.created_at,
        final(config).supervision_requests == old(config).supervision_requests,
        final(config).supervision_relationships == old(config).supervision_relationships,
{
    config.device.imei = Some(imei);
}

/// The local device's hardware id, or its device id when none is recorded.
pub fn get_device_imei(config: &DeviceConfig) -> (r: String)
    ensures
        r == match config.device.imei {
            Some(imei) => imei,
            None => config.device.device_id,
        },
{
    match &config.device.imei {
        Some(imei) => imei.clone(),
        None => config.device.device_id.clone(),
    }
}

} // verus!
